//! Bridge between a host process and a native desktop tray-icon UI.
//!
//! The host drives the UI across a C-shaped boundary: it starts one session,
//! receives UI events back through a callback as tagged UTF-8 messages, and
//! finally tears the session down.  This crate holds the bridge's logic — the
//! single-instance lifecycle, the validation of boundary buffers, the text
//! protocol, the ordered construction plan for the native widgets, and the
//! routing of native events to protocol messages — together with the
//! registry-introspection and icon-conversion helpers that ship beside it.

pub mod browsers;
pub mod builder;
pub mod convert;
pub mod dispatch;
pub mod guard;
pub mod marshal;
pub mod protocol;
pub mod session;

pub use protocol::MenuAction;
