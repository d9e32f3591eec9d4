//! The semantic commands of the dashboard and the mapping from keystrokes to
//! them. The threads that read keystrokes and emit timer ticks live outside
//! the library; they call `map_key` on a plain model of the pressed key.

use vstd::prelude::*;

verus! {

/// The closed set of commands the main loop consumes, one per wake-up.
#[derive(Debug, Eq, PartialEq, Structural, Clone, Copy)]
pub enum Event {
    /// Leave the dashboard.
    Exit,
    /// Select the next tab.
    NextTab,
    /// Select the previous tab.
    PreviousTab,
    /// Refresh the telemetry of every device.
    Tick,
}

/// A pressed key, reduced to what the dashboard distinguishes.
#[derive(Debug, Eq, PartialEq, Structural, Clone, Copy)]
pub enum Key {
    Left,
    Right,
    Esc,
    Char(char),
    Other,
}

/// The command a keystroke stands for: Left and Right move the selection,
/// `q`, Ctrl+C and Esc leave, and everything else is discarded.
pub open spec fn event_for(key: Key, ctrl: bool) -> Option<Event> {
    match key {
        Key::Left => Some(Event::PreviousTab),
        Key::Right => Some(Event::NextTab),
        Key::Esc => Some(Event::Exit),
        Key::Char(c) => if c == 'q' {
            Some(Event::Exit)
        } else if c == 'c' && ctrl {
            Some(Event::Exit)
        } else {
            None
        },
        Key::Other => None,
    }
}

/// Translate one keystroke into a command, or into nothing.
pub fn map_key(key: Key, ctrl: bool) -> (r: Option<Event>)
    ensures
        r == event_for(key, ctrl),
{
    match key {
        Key::Left => Some(Event::PreviousTab),
        Key::Right => Some(Event::NextTab),
        Key::Esc => Some(Event::Exit),
        Key::Char(c) => if c == 'q' {
            Some(Event::Exit)
        } else if c == 'c' && ctrl {
            Some(Event::Exit)
        } else {
            None
        },
        Key::Other => None,
    }
}

} // verus!
