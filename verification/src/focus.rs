//! Which of the two panels receives scroll key commands.

use vstd::prelude::*;

verus! {

/// The panel that currently has focus: scroll keys act on this stream only.
#[derive(Debug, Clone, Copy, PartialEq, Eq, Structural)]
pub enum ActiveWidget {
    Stdout,
    Stderr,
}

impl ActiveWidget {
    /// Toggle focus to the other panel.
    pub fn switch(&mut self)
        ensures
            *final(self) == (match *old(self) {
                ActiveWidget::Stdout => ActiveWidget::Stderr,
                ActiveWidget::Stderr => ActiveWidget::Stdout,
            }),
    {
        match self {
            ActiveWidget::Stdout => *self = ActiveWidget::Stderr,
            ActiveWidget::Stderr => *self = ActiveWidget::Stdout,
        }
    }
}

} // verus!
