//! The text protocol spoken to the host callback.
//!
//! Every UI event or failure is delivered to the host as one tagged UTF-8
//! message.  The first character of a message is its tag: `@` announces a
//! fixed event, `#` carries a picker result whose second character tells
//! files and directories apart, and `!` carries a failure description.

use vstd::prelude::*;
use vstd::string::StringExecFns;

verus! {

/// The closed set of logical actions an interactive widget can produce.
/// Each interactive widget is permanently bound to exactly one action when
/// the session is built.
#[derive(Clone, Copy, Debug, PartialEq, Eq, Structural)]
pub enum MenuAction {
    /// A left click on the tray icon itself.
    Click,
    /// The "open" menu item.
    Open,
    /// The menu item that opens a modal file-selection dialog.
    PickFile,
    /// The menu item that opens a modal directory-selection dialog.
    PickDirectory,
    /// The menu item that asks for the console to be shown.
    ShowConsole,
    /// The menu item that asks for the console to be hidden.
    HideConsole,
    /// The menu item that asks the host to quit.
    Exit,
}

/// The fixed message announcing `a`, for the actions that emit one directly.
/// The two picker actions emit no fixed message: their message depends on
/// the path the user selects, see [`spec_picker_message`].
pub open spec fn spec_immediate_message(a: MenuAction) -> Option<Seq<char>> {
    match a {
        MenuAction::Click => Some("@click"@),
        MenuAction::Open => Some("@open"@),
        MenuAction::PickFile => None,
        MenuAction::PickDirectory => None,
        MenuAction::ShowConsole => Some("@show"@),
        MenuAction::HideConsole => Some("@hide"@),
        MenuAction::Exit => Some("@exit"@),
    }
}

/// The message delivered when a picker dialog is confirmed with `path`:
/// `#D` + path for the directory picker, `#F` + path for the file picker.
pub open spec fn spec_picker_message(directory: bool, path: Seq<char>) -> Seq<char> {
    (if directory {
        "#D"@
    } else {
        "#F"@
    }) + path
}

/// The message delivered when the session has been built and the native
/// loop is about to start.
pub open spec fn spec_success_message() -> Seq<char> {
    "@success"@
}

/// The message duplicating an init-time failure with description `desc`
/// onto the callback channel.
pub open spec fn spec_failure_message(desc: Seq<char>) -> Seq<char> {
    "!"@ + desc
}

/// The fixed message for `a`, or `None` for the two picker actions.
pub fn immediate_message(a: MenuAction) -> (r: Option<&'static str>)
    ensures
        r is Some <==> spec_immediate_message(a) is Some,
        r is Some ==> r.unwrap()@ == spec_immediate_message(a).unwrap(),
{
    match a {
        MenuAction::Click => Some("@click"),
        MenuAction::Open => Some("@open"),
        MenuAction::PickFile => None,
        MenuAction::PickDirectory => None,
        MenuAction::ShowConsole => Some("@show"),
        MenuAction::HideConsole => Some("@hide"),
        MenuAction::Exit => Some("@exit"),
    }
}

/// The message for a confirmed picker dialog: the kind tag followed by the
/// selected path, unchanged.
pub fn picker_message(directory: bool, path: &str) -> (r: String)
    ensures
        r@ == spec_picker_message(directory, path@),
{
    let mut message = String::from_str(if directory {
        "#D"
    } else {
        "#F"
    });
    message.append(path);
    message
}

/// The message announcing a successfully built session.
pub fn success_message() -> (r: &'static str)
    ensures
        r@ == spec_success_message(),
{
    "@success"
}

/// A failure description, tagged for the callback channel.
pub fn failure_message(desc: &str) -> (r: String)
    ensures
        r@ == spec_failure_message(desc@),
{
    let mut message = String::from_str("!");
    message.append(desc);
    message
}

} // verus!
