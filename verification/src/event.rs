//! The events that drive a session, and what the session does on each.

use crate::app::{App, Session};
use crate::handler::{binding, handle_key_events, KeyEvent};
use vstd::prelude::*;

verus! {

/// Milliseconds between two ticks of the clock.
pub const TICK_RATE_MS: u64 = 250;

/// A move or a click of the mouse, by the cell that it happened on.
#[derive(Debug, Clone, Copy, PartialEq, Eq, Structural)]
pub struct MouseEvent {
    pub column: u16,
    pub row: u16,
}

/// What can happen while a session waits.
#[derive(Debug, Clone, Copy, PartialEq, Eq, Structural)]
pub enum Event {
    /// A tick of the clock. It only makes the screen be drawn again.
    Tick,
    /// A key was pressed.
    Key(KeyEvent),
    /// The mouse was used. No command is bound to the mouse.
    Mouse(MouseEvent),
    /// The terminal now has so many columns and rows. The screen is laid out
    /// anew at every drawing, so nothing is kept.
    Resize(u16, u16),
}

impl Session {
    /// The state after `event` was handled: a key press that is bound to a
    /// command carries the command out, and every other event leaves the
    /// state as it is.
    pub open spec fn after_event(self, event: Event) -> Session {
        match event {
            Event::Key(key_event) => match binding(key_event) {
                Some(command) => self.after_command(command),
                None => self,
            },
            _ => self,
        }
    }

    /// The state after `events` were handled one after the other.
    pub open spec fn after_events(self, events: Seq<Event>) -> Session
        decreases events.len(),
    {
        if events.len() == 0 {
            self
        } else {
            self.after_events(events.drop_last()).after_event(events.last())
        }
    }
}

impl App {
    /// Handles one event. The loop that drives the session draws the screen,
    /// waits for the next event, hands it to this function, and goes on for
    /// as long as the session is running.
    pub fn handle_event(&mut self, event: Event)
        ensures
            final(self)@ == old(self)@.after_event(event),
            final(self)@.wf(),
            final(self).document() == old(self).document(),
    {
        proof {
            use_type_invariant(&*self);
        }
        match event {
            Event::Tick => self.tick(),
            Event::Key(key_event) => {
                if let Some(command) = handle_key_events(key_event) {
                    command.exec(self);
                }
            },
            Event::Mouse(_) => {},
            Event::Resize(_, _) => {},
        }
    }
}

} // verus!
