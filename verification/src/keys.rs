//! Key events and the scroll commands they dispatch to.

use vstd::prelude::*;

verus! {

/// A keyboard event, already reduced to the keys this application reacts to.
/// Every other key arrives as `Other` and has no effect.
#[derive(Debug, Clone, Copy, PartialEq, Eq, Structural)]
pub enum Key {
    Esc,
    Tab,
    Up,
    Down,
    PageUp,
    PageDown,
    Home,
    End,
    Other,
}

/// A command for the scroll controller of one stream.
#[derive(Debug, Clone, Copy, PartialEq, Eq, Structural)]
pub enum ScrollCommand {
    LineUp,
    LineDown,
    PageUp,
    PageDown,
    Home,
    End,
}

/// The scroll command a key dispatches to, if any. `Esc`, `Tab` and `Other`
/// dispatch to none: they exit, toggle focus, or do nothing.
pub open spec fn scroll_of_key(k: Key) -> Option<ScrollCommand> {
    match k {
        Key::Up => Some(ScrollCommand::LineUp),
        Key::Down => Some(ScrollCommand::LineDown),
        Key::PageUp => Some(ScrollCommand::PageUp),
        Key::PageDown => Some(ScrollCommand::PageDown),
        Key::Home => Some(ScrollCommand::Home),
        Key::End => Some(ScrollCommand::End),
        Key::Esc => None,
        Key::Tab => None,
        Key::Other => None,
    }
}

/// Dispatch one key to its scroll command, if it has one.
pub fn key_scroll_command(k: Key) -> (r: Option<ScrollCommand>)
    ensures
        r == scroll_of_key(k),
{
    match k {
        Key::Up => Some(ScrollCommand::LineUp),
        Key::Down => Some(ScrollCommand::LineDown),
        Key::PageUp => Some(ScrollCommand::PageUp),
        Key::PageDown => Some(ScrollCommand::PageDown),
        Key::Home => Some(ScrollCommand::Home),
        Key::End => Some(ScrollCommand::End),
        Key::Esc => None,
        Key::Tab => None,
        Key::Other => None,
    }
}

} // verus!
