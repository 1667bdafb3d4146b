//! The per-frame view of one panel: everything the drawing layer needs,
//! as plain values.

use vstd::prelude::*;

use crate::focus::ActiveWidget;

verus! {

/// One panel, ready to draw: the wrapped lines, the vertical scroll position,
/// the title badges, and whether the border shows focus.
pub struct PanelView {
    /// The wrapped display lines of the whole stream.
    pub lines: Vec<String>,
    /// Index of the top visible line; the body is clipped to the viewport.
    pub offset: usize,
    /// True when the stream has closed: the title shows the EOF badge.
    pub show_eof: bool,
    /// True when the view follows the tail: the title shows the autoscroll badge.
    pub show_autoscroll: bool,
    /// True when this panel receives scroll keys: its border is highlighted.
    pub focused: bool,
    /// Total the scrollbar is configured with: `max(0, lines - height)`.
    pub scrollbar_total: usize,
    /// Position the scrollbar is configured with: equal to `offset`.
    pub scrollbar_position: usize,
}

/// The stream name shown on a panel's title row.
pub fn stream_title(which: ActiveWidget) -> (r: &'static str)
    ensures
        which == ActiveWidget::Stdout ==> r@ == "stdout"@,
        which == ActiveWidget::Stderr ==> r@ == "stderr"@,
{
    match which {
        ActiveWidget::Stdout => "stdout",
        ActiveWidget::Stderr => "stderr",
    }
}

/// The centered title badge: `EOF` once the stream has closed, else empty.
pub fn eof_badge(show_eof: bool) -> (r: &'static str)
    ensures
        show_eof ==> r@ == "EOF"@,
        !show_eof ==> r@ == ""@,
{
    if show_eof {
        "EOF"
    } else {
        ""
    }
}

/// The right-aligned title badge: `autoscrolling` while the view follows the
/// tail, else empty.
pub fn autoscroll_badge(show_autoscroll: bool) -> (r: &'static str)
    ensures
        show_autoscroll ==> r@ == "autoscrolling"@,
        !show_autoscroll ==> r@ == ""@,
{
    if show_autoscroll {
        "autoscrolling"
    } else {
        ""
    }
}

} // verus!
