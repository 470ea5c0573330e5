//! The ordered construction plan for a session's native resources.
//!
//! A session is built in a fixed order: the icon resource (loaded from the
//! configured path), the hidden message-only window that hosts the loop,
//! the tray notification-area icon, the popup context menu, the two modal
//! picker dialogs, and finally the context-menu entries, each bound to
//! exactly one logical action.  Any failure aborts the whole build: the
//! shell reports the failing step as a [`BuildFailure`], releases every
//! resource created so far, and the claimed slot is abandoned, so no
//! partial session ever leaks.

use vstd::prelude::*;
use crate::protocol::MenuAction;

verus! {

/// One entry of the context menu: an interactive item permanently bound to
/// a logical action, or a visual separator.
#[derive(Clone, Copy, Debug, PartialEq, Eq, Structural)]
pub enum MenuEntry {
    Item(MenuAction),
    Separator,
}

/// One stage of the ordered construction of a session.
#[derive(Clone, Copy, Debug, PartialEq, Eq, Structural)]
pub enum BuildStep {
    /// The icon resource, loaded from the configured icon path.
    Icon,
    /// The hidden message-only window that hosts the event loop and owns
    /// the other widgets.
    Window,
    /// The notification-area icon, bound to the window and the icon.
    TrayIcon,
    /// The popup context menu, bound to the window.
    Menu,
    /// The modal file-selection dialog.
    FilePicker,
    /// The modal directory-selection dialog.
    DirectoryPicker,
    /// One context-menu entry.
    Entry(MenuEntry),
}

/// A failed construction stage: the step that failed, and the toolkit's
/// own description of the failure.
#[derive(Debug, PartialEq, Eq)]
pub struct BuildFailure {
    pub step: BuildStep,
    pub detail: String,
}

/// The context menu's fixed, ordered layout: the open item and the two
/// pickers, the console show/hide pair, and the exit item, the three
/// groups separated by two separators.
pub open spec fn spec_menu_layout() -> Seq<MenuEntry> {
    seq![
        MenuEntry::Item(MenuAction::Open),
        MenuEntry::Item(MenuAction::PickFile),
        MenuEntry::Item(MenuAction::PickDirectory),
        MenuEntry::Separator,
        MenuEntry::Item(MenuAction::ShowConsole),
        MenuEntry::Item(MenuAction::HideConsole),
        MenuEntry::Separator,
        MenuEntry::Item(MenuAction::Exit),
    ]
}

/// The whole construction plan, in the order the steps must run.
pub open spec fn spec_build_plan() -> Seq<BuildStep> {
    seq![
        BuildStep::Icon,
        BuildStep::Window,
        BuildStep::TrayIcon,
        BuildStep::Menu,
        BuildStep::FilePicker,
        BuildStep::DirectoryPicker,
    ] + spec_menu_layout().map_values(|e: MenuEntry| BuildStep::Entry(e))
}

/// The context menu's layout, for the shell to build entry by entry.
pub fn menu_layout() -> (r: Vec<MenuEntry>)
    ensures
        r@ == spec_menu_layout(),
{
    let mut entries: Vec<MenuEntry> = Vec::new();
    entries.push(MenuEntry::Item(MenuAction::Open));
    entries.push(MenuEntry::Item(MenuAction::PickFile));
    entries.push(MenuEntry::Item(MenuAction::PickDirectory));
    entries.push(MenuEntry::Separator);
    entries.push(MenuEntry::Item(MenuAction::ShowConsole));
    entries.push(MenuEntry::Item(MenuAction::HideConsole));
    entries.push(MenuEntry::Separator);
    entries.push(MenuEntry::Item(MenuAction::Exit));
    proof {
        assert(entries@ =~= spec_menu_layout());
    }
    entries
}

/// The construction plan, for the shell to run step by step.
pub fn build_plan() -> (r: Vec<BuildStep>)
    ensures
        r@ == spec_build_plan(),
{
    let mut steps: Vec<BuildStep> = Vec::new();
    steps.push(BuildStep::Icon);
    steps.push(BuildStep::Window);
    steps.push(BuildStep::TrayIcon);
    steps.push(BuildStep::Menu);
    steps.push(BuildStep::FilePicker);
    steps.push(BuildStep::DirectoryPicker);
    let entries = menu_layout();
    let mut j: usize = 0;
    while j < entries.len()
        invariant
            j <= entries@.len(),
            entries@ == spec_menu_layout(),
            steps@ == seq![
                BuildStep::Icon,
                BuildStep::Window,
                BuildStep::TrayIcon,
                BuildStep::Menu,
                BuildStep::FilePicker,
                BuildStep::DirectoryPicker,
            ] + spec_menu_layout().map_values(|e: MenuEntry| BuildStep::Entry(e)).take(j as int),
        decreases entries@.len() - j,
    {
        steps.push(BuildStep::Entry(entries[j]));
        proof {
            let mapped = spec_menu_layout().map_values(|e: MenuEntry| BuildStep::Entry(e));
            assert(mapped.take(j + 1) =~= mapped.take(j as int).push(mapped[j as int]));
            assert(steps@ =~= seq![
                BuildStep::Icon,
                BuildStep::Window,
                BuildStep::TrayIcon,
                BuildStep::Menu,
                BuildStep::FilePicker,
                BuildStep::DirectoryPicker,
            ] + mapped.take(j + 1));
        }
        j = j + 1;
    }
    proof {
        let mapped = spec_menu_layout().map_values(|e: MenuEntry| BuildStep::Entry(e));
        assert(mapped.take(mapped.len() as int) =~= mapped);
    }
    steps
}

/// The label text of the menu item bound to `a`, or `None` for the one
/// action that no menu item carries (the tray click).
pub open spec fn spec_entry_label(a: MenuAction) -> Option<Seq<char>> {
    match a {
        MenuAction::Click => None,
        MenuAction::Open => Some("打开WebUI"@),
        MenuAction::PickFile => Some("打开文件"@),
        MenuAction::PickDirectory => Some("打开目录"@),
        MenuAction::ShowConsole => Some("显示控制台"@),
        MenuAction::HideConsole => Some("隐藏控制台"@),
        MenuAction::Exit => Some("退出"@),
    }
}

/// The label of the menu item bound to `a`.
pub fn entry_label(a: MenuAction) -> (r: Option<&'static str>)
    ensures
        r is Some <==> spec_entry_label(a) is Some,
        r is Some ==> r.unwrap()@ == spec_entry_label(a).unwrap(),
{
    match a {
        MenuAction::Click => None,
        MenuAction::Open => Some("打开WebUI"),
        MenuAction::PickFile => Some("打开文件"),
        MenuAction::PickDirectory => Some("打开目录"),
        MenuAction::ShowConsole => Some("显示控制台"),
        MenuAction::HideConsole => Some("隐藏控制台"),
        MenuAction::Exit => Some("退出"),
    }
}

} // verus!
