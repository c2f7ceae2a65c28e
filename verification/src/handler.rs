//! The commands of a session and the keys that are bound to them.

use crate::app::{App, Session};
use crate::tabs::TabBarState;
use vstd::prelude::*;

verus! {

/// What the user can ask of a session.
#[derive(Debug, Clone, Copy, PartialEq, Eq, Structural)]
pub enum Command {
    /// Leave the viewer.
    Quit,
    /// Move the selection by so many rows, down if positive.
    TableFocusDelta(i32),
    /// Select the first row.
    TableFocusTop,
    /// Select the last row.
    TableFocusBottom,
    /// Show a tab of the detail panel.
    SetTabBarState(TabBarState),
}

impl Session {
    /// The state after `command` was carried out.
    pub open spec fn after_command(self, command: Command) -> Session {
        match command {
            Command::Quit => self.stopped(),
            Command::TableFocusDelta(delta) => self.moved_by(delta as int),
            Command::TableFocusTop => self.moved_to_first(),
            Command::TableFocusBottom => self.moved_to_last(),
            Command::SetTabBarState(tab) => self.with_tab(tab),
        }
    }
}

impl Command {
    /// Carries the command out on `app`. Every command is one change of the
    /// state; none can fail.
    pub fn exec(&self, app: &mut App)
        ensures
            final(app)@ == old(app)@.after_command(*self),
            final(app)@.wf(),
            final(app).document() == old(app).document(),
    {
        match self {
            Command::Quit => app.quit(),
            Command::TableFocusTop => app.update_index_first(),
            Command::TableFocusBottom => app.update_index_last(),
            Command::TableFocusDelta(count) => app.update_index(*count),
            Command::SetTabBarState(state) => app.set_tabbar_state(state),
        }
    }
}

/// A key of the keyboard.
#[derive(Debug, Clone, Copy, PartialEq, Eq, Structural)]
pub enum KeyCode {
    Backspace,
    Enter,
    Left,
    Right,
    Up,
    Down,
    Home,
    End,
    PageUp,
    PageDown,
    Tab,
    BackTab,
    Delete,
    Insert,
    /// A function key, by its number.
    F(u8),
    /// A key that types a character.
    Char(char),
    Null,
    Esc,
    /// Any other key.
    Other,
}

/// The modifier keys held down with a key, one bit each.
#[derive(Debug, Clone, Copy, PartialEq, Eq, Structural)]
pub struct KeyModifiers {
    pub bits: u8,
}

/// No modifier key.
pub const NONE: u8 = 0b0000_0000;

/// The shift key.
pub const SHIFT: u8 = 0b0000_0001;

/// The control key.
pub const CONTROL: u8 = 0b0000_0010;

/// The alt key.
pub const ALT: u8 = 0b0000_0100;

/// The super key.
pub const SUPER: u8 = 0b0000_1000;

/// The hyper key.
pub const HYPER: u8 = 0b0001_0000;

/// The meta key.
pub const META: u8 = 0b0010_0000;

/// Rows that a line key moves the selection down.
pub const LINE_DOWN: i32 = 1;

/// Rows that a line key moves the selection up, as a negative number.
pub const LINE_UP: i32 = -1;

/// Rows that a page key moves the selection down.
pub const PAGE_DOWN: i32 = 3;

/// Rows that a page key moves the selection up, as a negative number.
pub const PAGE_UP: i32 = -3;

/// A key press: the key and the modifier keys held down with it.
#[derive(Debug, Clone, Copy, PartialEq, Eq, Structural)]
pub struct KeyEvent {
    pub code: KeyCode,
    pub modifiers: KeyModifiers,
}

/// The command bound to a character key, whatever modifiers are held.
pub open spec fn char_binding(c: char) -> Option<Command> {
    if c == 'q' {
        Some(Command::Quit)
    } else if c == 'j' {
        Some(Command::TableFocusDelta(LINE_DOWN))
    } else if c == 'k' {
        Some(Command::TableFocusDelta(LINE_UP))
    } else if c == 'd' {
        Some(Command::TableFocusDelta(PAGE_DOWN))
    } else if c == 'u' {
        Some(Command::TableFocusDelta(PAGE_UP))
    } else if c == 'g' {
        Some(Command::TableFocusTop)
    } else if c == 'G' {
        Some(Command::TableFocusBottom)
    } else if c == '1' {
        Some(Command::SetTabBarState(TabBarState::Headers))
    } else if c == '2' {
        Some(Command::SetTabBarState(TabBarState::Cookies))
    } else if c == '3' {
        Some(Command::SetTabBarState(TabBarState::Request))
    } else if c == '4' {
        Some(Command::SetTabBarState(TabBarState::Response))
    } else {
        None
    }
}

/// The command bound to a key press, if any: `c` or `C` with control alone
/// leaves the viewer, the arrows move by one row, and the other bindings are
/// those of the character keys.
pub open spec fn binding(key_event: KeyEvent) -> Option<Command> {
    match key_event.code {
        KeyCode::Char(c) => {
            if c == 'c' || c == 'C' {
                if key_event.modifiers.bits == CONTROL {
                    Some(Command::Quit)
                } else {
                    None
                }
            } else {
                char_binding(c)
            }
        },
        KeyCode::Down => Some(Command::TableFocusDelta(LINE_DOWN)),
        KeyCode::Up => Some(Command::TableFocusDelta(LINE_UP)),
        _ => None,
    }
}

/// Maps a key press to the command that it is bound to.
pub fn handle_key_events(key_event: KeyEvent) -> (command: Option<Command>)
    ensures
        command == binding(key_event),
{
    match key_event.code {
        KeyCode::Char('q') => Some(Command::Quit),
        KeyCode::Char('c') | KeyCode::Char('C') => {
            if key_event.modifiers.bits == CONTROL {
                Some(Command::Quit)
            } else {
                None
            }
        },
        KeyCode::Char('j') | KeyCode::Down => Some(Command::TableFocusDelta(LINE_DOWN)),
        KeyCode::Char('k') | KeyCode::Up => Some(Command::TableFocusDelta(LINE_UP)),
        KeyCode::Char('d') => Some(Command::TableFocusDelta(PAGE_DOWN)),
        KeyCode::Char('u') => Some(Command::TableFocusDelta(PAGE_UP)),
        KeyCode::Char('g') => Some(Command::TableFocusTop),
        KeyCode::Char('G') => Some(Command::TableFocusBottom),
        KeyCode::Char('1') => Some(Command::SetTabBarState(TabBarState::Headers)),
        KeyCode::Char('2') => Some(Command::SetTabBarState(TabBarState::Cookies)),
        KeyCode::Char('3') => Some(Command::SetTabBarState(TabBarState::Request)),
        KeyCode::Char('4') => Some(Command::SetTabBarState(TabBarState::Response)),
        _ => None,
    }
}

} // verus!
