//! What can happen to the application, and what it asks for in return.

use vstd::prelude::*;

use crate::filter::FilterMessage;
use crate::password::PasswordMessage;

verus! {

/// How the application's window is shown.
#[derive(Debug, Clone, Copy, PartialEq, Eq, Structural)]
pub enum WindowMode {
    Windowed,
    Fullscreen,
    Hidden,
}

/// An event that the application reacts to.
#[derive(Debug, Clone)]
pub enum Message {
    SetFilter(FilterMessage),
    PasswordMessage(PasswordMessage),
    TabPressed { shift: bool },
    ToggleFullscreen(WindowMode),
}

/// What the application asks its shell to do after an event. The shell
/// carries it out; nothing comes back.
#[derive(Debug, Clone)]
pub enum Action {
    /// Nothing to do.
    Nothing,
    /// Put the text on the clipboard.
    WriteClipboard(String),
    /// Move the keyboard focus to the previous widget.
    FocusPrevious,
    /// Move the keyboard focus to the next widget.
    FocusNext,
    /// Show the window in the given mode.
    ChangeMode(WindowMode),
}

} // verus!
