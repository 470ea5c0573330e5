//! The live tray session and its observable widget state.
//!
//! A session owns its configuration exclusively and records which of the
//! two console menu items is currently enabled.  The native widget handles
//! themselves live outside the bridge's logic; everything the logic reads
//! or decides about them is held here as plain values.

use vstd::prelude::*;
use crate::marshal;
use crate::marshal::MarshalError;
use vstd::utf8::valid_utf8;

verus! {

/// The configuration a session is built from: the display name used as the
/// tray tip, and the path of the icon file.  The session takes exclusive
/// ownership of both when it is constructed.
pub struct TrayConfig {
    pub name: String,
    pub icon_path: String,
}

/// One live tray-UI instance.
///
/// `show_enabled` and `hide_enabled` mirror the enablement of the two
/// console menu items; a well-formed session has exactly one of them
/// enabled at any time.
pub struct TraySession {
    pub config: TrayConfig,
    pub show_enabled: bool,
    pub hide_enabled: bool,
}

/// A notification display request: the exact text and optional title that
/// the native display call must receive.
#[derive(Debug, PartialEq, Eq)]
pub struct Notice {
    pub text: String,
    pub title: Option<String>,
}

impl TraySession {
    /// Exactly one of the Show and Hide menu items is enabled.
    pub open spec fn wf(self) -> bool {
        self.hide_enabled == !self.show_enabled
    }

    /// A freshly built session.  The console starts out visible, so the
    /// enablement is that of `set_show(true)`: Show disabled, Hide enabled.
    pub fn new(config: TrayConfig) -> (r: TraySession)
        ensures
            r.wf(),
            r.config == config,
            !r.show_enabled,
            r.hide_enabled,
    {
        TraySession { config, show_enabled: false, hide_enabled: true }
    }

    /// Record a console visibility change: after `set_show(show)` the Show
    /// item is enabled exactly when the console is hidden and the Hide item
    /// exactly when it is shown, so the two are never enabled together.
    pub fn set_show(&mut self, show: bool)
        ensures
            final(self).wf(),
            final(self).show_enabled == !show,
            final(self).hide_enabled == show,
            final(self).config == old(self).config,
    {
        self.show_enabled = !show;
        self.hide_enabled = show;
    }

    /// Shape a notification request from the two boundary buffers.
    ///
    /// Both buffers are validated; the text and the title reach the display
    /// call byte for byte, with no truncation and no re-encoding.  An empty
    /// title buffer means "no title", which is distinct from an empty-string
    /// title: a zero-length title never decodes to `Some`.
    pub fn notification(&self, text: &Vec<u8>, title: &Vec<u8>) -> (r: Result<
        Notice,
        MarshalError,
    >)
        ensures
            r is Ok <==> valid_utf8(text@) && (title@.len() == 0 || valid_utf8(title@)),
            r is Ok ==> vstd::utf8::encode_utf8(r.unwrap().text@) == text@,
            r is Ok && title@.len() == 0 ==> r.unwrap().title is None,
            r is Ok && title@.len() > 0 ==> r.unwrap().title is Some && vstd::utf8::encode_utf8(
                r.unwrap().title.unwrap()@,
            ) == title@,
    {
        let text = marshal::decode(text)?;
        if title.len() == 0 {
            Ok(Notice { text, title: None })
        } else {
            let title = marshal::decode(title)?;
            Ok(Notice { text, title: Some(title) })
        }
    }
}

/// Law: the bytes handed to the display call by a notification round-trip
/// unchanged.  Whenever a notification request was shaped from valid
/// buffers, re-encoding its text yields the text buffer exactly, and the
/// same holds for a present title; an absent title comes exactly from the
/// zero-length buffer.
pub proof fn lemma_notification_round_trip(
    text: Seq<u8>,
    title: Seq<u8>,
    r: Result<Notice, MarshalError>,
)
    requires
        r is Ok ==> vstd::utf8::encode_utf8(r.unwrap().text@) == text,
        r is Ok && title.len() == 0 ==> r.unwrap().title is None,
        r is Ok && title.len() > 0 ==> r.unwrap().title is Some && vstd::utf8::encode_utf8(
            r.unwrap().title.unwrap()@,
        ) == title,
    ensures
        r is Ok ==> r.unwrap().text@ == vstd::utf8::decode_utf8(text) && vstd::utf8::encode_utf8(
            r.unwrap().text@,
        ) == text,
        r is Ok ==> (r.unwrap().title is Some <==> title.len() > 0),
{
    if r is Ok {
        vstd::utf8::encode_utf8_decode_utf8(r.unwrap().text@);
    }
}

} // verus!
