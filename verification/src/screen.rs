//! Events of the terminal: keys, mouse, resize, focus, paste and the two timers.

use vstd::prelude::*;

verus! {

/// No modifier key is held.
pub const MODIFIER_NONE: u8 = 0;

/// The bit of the shift key in [`KeyEvent::modifiers`].
pub const MODIFIER_SHIFT: u8 = 1;

/// The bit of the control key in [`KeyEvent::modifiers`].
pub const MODIFIER_CONTROL: u8 = 2;

/// The bit of the alt key in [`KeyEvent::modifiers`].
pub const MODIFIER_ALT: u8 = 4;

/// The key of a key event.
#[derive(Clone, Copy, Debug, PartialEq, Eq, Structural)]
pub enum KeyCode {
    Backspace,
    Enter,
    Left,
    Right,
    Up,
    Down,
    Home,
    End,
    PageUp,
    PageDown,
    Tab,
    BackTab,
    Delete,
    Insert,
    F(u8),
    Char(char),
    Esc,
    Other,
}

/// Whether a key went down, is held, or came up.
#[derive(Clone, Copy, Debug, PartialEq, Eq, Structural)]
pub enum KeyEventKind {
    Press,
    Repeat,
    Release,
}

/// A key event: the key, the modifier keys held with it as a bit set, and its kind.
#[derive(Clone, Copy, Debug, PartialEq, Eq, Structural)]
pub struct KeyEvent {
    pub code: KeyCode,
    pub modifiers: u8,
    pub kind: KeyEventKind,
}

/// A mouse event: where the pointer is, and the modifier keys held.
#[derive(Clone, Copy, Debug, PartialEq, Eq, Structural)]
pub struct MouseEvent {
    pub column: u16,
    pub row: u16,
    pub modifiers: u8,
}

/// What the terminal side hands to the event loop.
#[derive(Clone, Debug)]
pub enum ScreenEvent {
    Init,
    Quit,
    Error,
    Closed,
    Tick,
    Render,
    FocusGained,
    FocusLost,
    Paste(String),
    Key(KeyEvent),
    Mouse(MouseEvent),
    Resize(u16, u16),
}

/// One event as the terminal reports it.
pub enum TermInput {
    Key(KeyEvent),
    Mouse(MouseEvent),
    Resize(u16, u16),
    FocusLost,
    FocusGained,
    Paste(String),
}

/// What woke the task that watches the terminal.
pub enum Wakeup {
    /// The terminal reported an event.
    Input(TermInput),
    /// Reading the terminal failed.
    InputFailed,
    /// The terminal's event stream ended.
    InputEnded,
    /// The housekeeping timer fired.
    Tick,
    /// The render timer fired.
    Render,
}

/// The event that the watching task sends for a wakeup, if any: a key event
/// only when the key went down, nothing when the stream ended.
pub open spec fn screen_event_spec(w: Wakeup) -> Option<ScreenEvent> {
    match w {
        Wakeup::Input(TermInput::Key(key)) => if key.kind == KeyEventKind::Press {
            Some(ScreenEvent::Key(key))
        } else {
            None
        },
        Wakeup::Input(TermInput::Mouse(mouse)) => Some(ScreenEvent::Mouse(mouse)),
        Wakeup::Input(TermInput::Resize(x, y)) => Some(ScreenEvent::Resize(x, y)),
        Wakeup::Input(TermInput::FocusLost) => Some(ScreenEvent::FocusLost),
        Wakeup::Input(TermInput::FocusGained) => Some(ScreenEvent::FocusGained),
        Wakeup::Input(TermInput::Paste(s)) => Some(ScreenEvent::Paste(s)),
        Wakeup::InputFailed => Some(ScreenEvent::Error),
        Wakeup::InputEnded => None,
        Wakeup::Tick => Some(ScreenEvent::Tick),
        Wakeup::Render => Some(ScreenEvent::Render),
    }
}

/// Turns a wakeup of the watching task into the event to send.
pub fn screen_event(w: Wakeup) -> (e: Option<ScreenEvent>)
    ensures
        e == screen_event_spec(w),
{
    match w {
        Wakeup::Input(TermInput::Key(key)) => {
            if key.kind == KeyEventKind::Press {
                Some(ScreenEvent::Key(key))
            } else {
                None
            }
        },
        Wakeup::Input(TermInput::Mouse(mouse)) => Some(ScreenEvent::Mouse(mouse)),
        Wakeup::Input(TermInput::Resize(x, y)) => Some(ScreenEvent::Resize(x, y)),
        Wakeup::Input(TermInput::FocusLost) => Some(ScreenEvent::FocusLost),
        Wakeup::Input(TermInput::FocusGained) => Some(ScreenEvent::FocusGained),
        Wakeup::Input(TermInput::Paste(s)) => Some(ScreenEvent::Paste(s)),
        Wakeup::InputFailed => Some(ScreenEvent::Error),
        Wakeup::InputEnded => None,
        Wakeup::Tick => Some(ScreenEvent::Tick),
        Wakeup::Render => Some(ScreenEvent::Render),
    }
}

/// What a key asks the client to do.
#[derive(Clone, Copy, Debug, PartialEq, Eq, Structural)]
pub enum Action {
    /// Leave the program.
    Quit,
    /// Select the next conversation of the list.
    SelectNext,
    /// Select the previous conversation of the list.
    SelectPrevious,
    /// Nothing is bound to the key.
    Ignore,
}

/// The key bindings: `q` and control-`c` quit, `j` goes down, `k` goes up.
pub open spec fn key_action_spec(key: KeyEvent) -> Action {
    if key.modifiers == MODIFIER_NONE && key.code == KeyCode::Char('q') {
        Action::Quit
    } else if key.modifiers == MODIFIER_CONTROL && key.code == KeyCode::Char('c') {
        Action::Quit
    } else if key.modifiers == MODIFIER_NONE && key.code == KeyCode::Char('j') {
        Action::SelectNext
    } else if key.modifiers == MODIFIER_NONE && key.code == KeyCode::Char('k') {
        Action::SelectPrevious
    } else {
        Action::Ignore
    }
}

/// The action bound to a key.
pub fn key_action(key: &KeyEvent) -> (a: Action)
    ensures
        a == key_action_spec(*key),
{
    match key.code {
        KeyCode::Char(c) => {
            if key.modifiers == MODIFIER_NONE && c == 'q' {
                Action::Quit
            } else if key.modifiers == MODIFIER_CONTROL && c == 'c' {
                Action::Quit
            } else if key.modifiers == MODIFIER_NONE && c == 'j' {
                Action::SelectNext
            } else if key.modifiers == MODIFIER_NONE && c == 'k' {
                Action::SelectPrevious
            } else {
                Action::Ignore
            }
        },
        _ => Action::Ignore,
    }
}

} // verus!
