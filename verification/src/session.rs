//! The application state machine: one step per multiplexed event, and the
//! per-frame wrap / reconcile / view composition.

use vstd::prelude::*;

use crate::focus::ActiveWidget;
use crate::keys::Key;
use crate::keys::ScrollCommand;
use crate::keys::scroll_of_key;
use crate::render::PanelView;
use crate::stream::StreamModel;
use crate::stream::StreamState;
use crate::stream::concat_texts;
use crate::stream::init_stream;
use crate::stream::lossy_decode;
use crate::stream::reconcile_step;
use crate::stream::sat_sub;
use crate::stream::scroll_step;
use crate::wrap::display_lines;
use crate::wrap::wrapped_lines;

verus! {

/// One event out of the multiplexed wait: a block of bytes or end-of-stream
/// from either child reader, or one key from the terminal.
pub enum AppEvent {
    OutData(Vec<u8>),
    OutEof,
    ErrData(Vec<u8>),
    ErrEof,
    Input(Key),
}

/// The mathematical model of an event: data already decoded to text.
pub ghost enum EventModel {
    OutData(Seq<char>),
    OutEof,
    ErrData(Seq<char>),
    ErrEof,
    Input(Key),
}

impl View for AppEvent {
    type V = EventModel;

    open spec fn view(&self) -> EventModel {
        match self {
            AppEvent::OutData(d) => EventModel::OutData(lossy_decode(d@)),
            AppEvent::OutEof => EventModel::OutEof,
            AppEvent::ErrData(d) => EventModel::ErrData(lossy_decode(d@)),
            AppEvent::ErrEof => EventModel::ErrEof,
            AppEvent::Input(k) => EventModel::Input(*k),
        }
    }
}

/// The mathematical model of the whole application state.
#[verifier::ext_equal]
pub ghost struct AppModel {
    pub out: StreamModel,
    pub err: StreamModel,
    pub focus: ActiveWidget,
}

/// The state at startup: both streams fresh, focus on stdout.
pub open spec fn init_app() -> AppModel {
    AppModel { out: init_stream(), err: init_stream(), focus: ActiveWidget::Stdout }
}

/// The panel the focus toggles to.
pub open spec fn toggled(f: ActiveWidget) -> ActiveWidget {
    match f {
        ActiveWidget::Stdout => ActiveWidget::Stderr,
        ActiveWidget::Stderr => ActiveWidget::Stdout,
    }
}

/// The effect of one event on the application state. Data extends the
/// stream's text; end-of-stream clears `open`; a scroll key acts on the
/// focused stream alone; Tab toggles focus; every other key does nothing.
pub open spec fn event_step(m: AppModel, e: EventModel, page: int) -> AppModel {
    match e {
        EventModel::OutData(t) => AppModel {
            out: StreamModel { text: m.out.text + t, ..m.out },
            ..m
        },
        EventModel::OutEof => AppModel { out: StreamModel { open: false, ..m.out }, ..m },
        EventModel::ErrData(t) => AppModel {
            err: StreamModel { text: m.err.text + t, ..m.err },
            ..m
        },
        EventModel::ErrEof => AppModel { err: StreamModel { open: false, ..m.err }, ..m },
        EventModel::Input(k) => match scroll_of_key(k) {
            Some(cmd) => match m.focus {
                ActiveWidget::Stdout => AppModel { out: scroll_step(m.out, cmd, page), ..m },
                ActiveWidget::Stderr => AppModel { err: scroll_step(m.err, cmd, page), ..m },
            },
            None => if k == Key::Tab {
                AppModel { focus: toggled(m.focus), ..m }
            } else {
                m
            },
        },
    }
}

/// Whether an event ends the loop: only the Escape key does.
pub open spec fn event_exits(e: EventModel) -> bool {
    e == EventModel::Input(Key::Esc)
}

/// The state after a whole sequence of events, in order.
pub open spec fn run_events(m: AppModel, es: Seq<EventModel>, page: int) -> AppModel
    decreases es.len(),
{
    if es.len() == 0 {
        m
    } else {
        run_events(event_step(m, es[0], page), es.drop_first(), page)
    }
}

/// The live state of the application: both streams and the focus.
pub struct AppState {
    pub out: StreamState,
    pub err: StreamState,
    pub focus: ActiveWidget,
}

impl View for AppState {
    type V = AppModel;

    open spec fn view(&self) -> AppModel {
        AppModel { out: self.out@, err: self.err@, focus: self.focus }
    }
}

impl AppState {
    /// The state at startup.
    pub fn new() -> (r: AppState)
        ensures
            r@ == init_app(),
    {
        let r = AppState {
            out: StreamState::new(),
            err: StreamState::new(),
            focus: ActiveWidget::Stdout,
        };
        proof {
            assert(r@ =~= init_app());
        }
        r
    }

    /// Apply one multiplexed event; returns whether the loop must exit.
    pub fn handle_event(&mut self, event: AppEvent, page: usize) -> (exit: bool)
        ensures
            final(self)@ == event_step(old(self)@, event@, page as int),
            exit == event_exits(event@),
    {
        let ghost target = event_step(old(self)@, event@, page as int);
        let exit: bool = match event {
            AppEvent::OutData(data) => {
                self.out.append(data.as_slice());
                false
            },
            AppEvent::OutEof => {
                self.out.close();
                false
            },
            AppEvent::ErrData(data) => {
                self.err.append(data.as_slice());
                false
            },
            AppEvent::ErrEof => {
                self.err.close();
                false
            },
            AppEvent::Input(k) => {
                match crate::keys::key_scroll_command(k) {
                    Some(cmd) => {
                        match self.focus {
                            ActiveWidget::Stdout => self.out.apply_scroll(cmd, page),
                            ActiveWidget::Stderr => self.err.apply_scroll(cmd, page),
                        }
                        false
                    },
                    None => {
                        if k == Key::Tab {
                            self.focus.switch();
                        }
                        k == Key::Esc
                    },
                }
            },
        };
        proof {
            assert(final(self)@ =~= target);
        }
        exit
    }

    /// One frame: wrap both streams to the panel widths, reconcile both
    /// scroll states against the new line counts and the viewport height, and
    /// hand back everything the drawing layer needs for the two panels.
    ///
    /// After the frame, each offset lies within `[0, max(0, lines - height)]`;
    /// a view that had reached the tail is autoscrolling; and an autoscrolling
    /// view shows the last line whenever there is one and the viewport has any
    /// height.
    pub fn compose_frame(&mut self, out_width: usize, err_width: usize, height: usize) -> (r: (
        PanelView,
        PanelView,
    ))
        ensures
            final(self)@.out == reconcile_step(
                old(self)@.out,
                display_lines(old(self)@.out.text, out_width as nat).len() as int,
                height as int,
            ),
            final(self)@.err == reconcile_step(
                old(self)@.err,
                display_lines(old(self)@.err.text, err_width as nat).len() as int,
                height as int,
            ),
            final(self)@.focus == old(self)@.focus,
            final(self)@.out.text == old(self)@.out.text,
            final(self)@.err.text == old(self)@.err.text,
            r.0.lines@.map_values(|s: String| s@) == display_lines(old(self)@.out.text, out_width as nat),
            r.0.offset == final(self)@.out.offset,
            r.0.show_eof == !final(self)@.out.open,
            r.0.show_autoscroll == final(self)@.out.autoscroll,
            r.0.focused == (old(self)@.focus == ActiveWidget::Stdout),
            r.0.scrollbar_total == sat_sub(
                display_lines(old(self)@.out.text, out_width as nat).len() as int,
                height as int,
            ),
            r.0.scrollbar_position == final(self)@.out.offset,
            r.1.lines@.map_values(|s: String| s@) == display_lines(old(self)@.err.text, err_width as nat),
            r.1.offset == final(self)@.err.offset,
            r.1.show_eof == !final(self)@.err.open,
            r.1.show_autoscroll == final(self)@.err.autoscroll,
            r.1.focused == (old(self)@.focus == ActiveWidget::Stderr),
            r.1.scrollbar_total == sat_sub(
                display_lines(old(self)@.err.text, err_width as nat).len() as int,
                height as int,
            ),
            r.1.scrollbar_position == final(self)@.err.offset,
            final(self)@.out.offset <= sat_sub(r.0.lines@.len() as int, height as int),
            final(self)@.err.offset <= sat_sub(r.1.lines@.len() as int, height as int),
            old(self)@.out.offset + height >= r.0.lines@.len() ==> final(self)@.out.autoscroll,
            old(self)@.err.offset + height >= r.1.lines@.len() ==> final(self)@.err.autoscroll,
            old(self)@.out.autoscroll && r.0.lines@.len() >= 1 && height >= 1
                ==> final(self)@.out.offset < r.0.lines@.len() <= final(self)@.out.offset + height,
            old(self)@.err.autoscroll && r.1.lines@.len() >= 1 && height >= 1
                ==> final(self)@.err.offset < r.1.lines@.len() <= final(self)@.err.offset + height,
    {
        let out_lines = wrapped_lines(&self.out.chunks, out_width);
        let out_total = out_lines.len().saturating_sub(height);
        self.out.reconcile(out_lines.len(), height);
        let out_view = PanelView {
            lines: out_lines,
            offset: self.out.offset,
            show_eof: !self.out.open,
            show_autoscroll: self.out.autoscroll,
            focused: self.focus == ActiveWidget::Stdout,
            scrollbar_total: out_total,
            scrollbar_position: self.out.offset,
        };
        let err_lines = wrapped_lines(&self.err.chunks, err_width);
        let err_total = err_lines.len().saturating_sub(height);
        self.err.reconcile(err_lines.len(), height);
        let err_view = PanelView {
            lines: err_lines,
            offset: self.err.offset,
            show_eof: !self.err.open,
            show_autoscroll: self.err.autoscroll,
            focused: self.focus == ActiveWidget::Stderr,
            scrollbar_total: err_total,
            scrollbar_position: self.err.offset,
        };
        (out_view, err_view)
    }
}

/// One event never reopens a closed stream.
pub proof fn lemma_eof_latch_step(m: AppModel, e: EventModel, page: int)
    ensures
        event_step(m, e, page).out.open ==> m.out.open,
        event_step(m, e, page).err.open ==> m.err.open,
{
}

/// EOF latch: once a stream's `open` is false, no sequence of later events
/// restores it to true.
pub proof fn lemma_eof_latch(m: AppModel, es: Seq<EventModel>, page: int)
    ensures
        !m.out.open ==> !run_events(m, es, page).out.open,
        !m.err.open ==> !run_events(m, es, page).err.open,
    decreases es.len(),
{
    if es.len() > 0 {
        lemma_eof_latch_step(m, es[0], page);
        lemma_eof_latch(event_step(m, es[0], page), es.drop_first(), page);
    }
}

/// One event only ever extends a stream's text.
pub proof fn lemma_append_monotone_step(m: AppModel, e: EventModel, page: int)
    ensures
        m.out.text.is_prefix_of(event_step(m, e, page).out.text),
        m.err.text.is_prefix_of(event_step(m, e, page).err.text),
{
    assert(m.out.text =~= m.out.text.subrange(0, m.out.text.len() as int));
    assert(m.err.text =~= m.err.text.subrange(0, m.err.text.len() as int));
    match e {
        EventModel::OutData(t) => {
            crate::stream::lemma_concat_grows(m.out.text, t);
        },
        EventModel::ErrData(t) => {
            crate::stream::lemma_concat_grows(m.err.text, t);
        },
        _ => {},
    }
}

/// Append monotonicity: over any sequence of events, each stream's earlier
/// text is a prefix of its later text.
pub proof fn lemma_append_monotone(m: AppModel, es: Seq<EventModel>, page: int)
    ensures
        m.out.text.is_prefix_of(run_events(m, es, page).out.text),
        m.err.text.is_prefix_of(run_events(m, es, page).err.text),
    decreases es.len(),
{
    if es.len() == 0 {
        assert(m.out.text =~= m.out.text.subrange(0, m.out.text.len() as int));
        assert(m.err.text =~= m.err.text.subrange(0, m.err.text.len() as int));
    } else {
        let m1 = event_step(m, es[0], page);
        lemma_append_monotone_step(m, es[0], page);
        lemma_append_monotone(m1, es.drop_first(), page);
        crate::stream::lemma_prefix_trans(
            m.out.text,
            m1.out.text,
            run_events(m1, es.drop_first(), page).out.text,
        );
        crate::stream::lemma_prefix_trans(
            m.err.text,
            m1.err.text,
            run_events(m1, es.drop_first(), page).err.text,
        );
    }
}

/// Focus exclusivity: a scroll key acts on the focused stream exactly as the
/// scroll controller says, leaves the other stream untouched, and does not
/// move the focus.
pub proof fn lemma_focus_exclusive(m: AppModel, k: Key, cmd: ScrollCommand, page: int)
    requires
        scroll_of_key(k) == Some(cmd),
    ensures
        event_step(m, EventModel::Input(k), page).focus == m.focus,
        m.focus == ActiveWidget::Stdout ==> event_step(m, EventModel::Input(k), page).err == m.err
            && event_step(m, EventModel::Input(k), page).out == scroll_step(m.out, cmd, page),
        m.focus == ActiveWidget::Stderr ==> event_step(m, EventModel::Input(k), page).out == m.out
            && event_step(m, EventModel::Input(k), page).err == scroll_step(m.err, cmd, page),
{
}

} // verus!
