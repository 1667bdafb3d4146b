//! Sizes derived from the terminal: the scroll page size and a panel's inner
//! dimensions.

use vstd::prelude::*;

use crate::stream::sat_sub;

verus! {

/// The page size used by PageUp and PageDown: a third of the terminal height,
/// or 10 when the terminal size cannot be queried.
pub fn page_size(terminal_height: Option<u16>) -> (p: usize)
    ensures
        terminal_height matches Some(h) ==> p == h as int / 3,
        terminal_height is None ==> p == 10,
{
    match terminal_height {
        Some(h) => (h / 3) as usize,
        None => 10,
    }
}

/// A panel's inner width and height: the panel rectangle minus one border
/// cell on each side, floored at zero.
pub fn inner_size(panel_width: u16, panel_height: u16) -> (r: (usize, usize))
    ensures
        r.0 == sat_sub(panel_width as int, 2),
        r.1 == sat_sub(panel_height as int, 2),
{
    (panel_width.saturating_sub(2) as usize, panel_height.saturating_sub(2) as usize)
}

} // verus!
