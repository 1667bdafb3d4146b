//! Per-stream state: the append-only text accumulator, the EOF flag, and the
//! scroll controller with its autoscroll policy.

use vstd::prelude::*;

use crate::keys::ScrollCommand;

verus! {

/// What `String::from_utf8_lossy` returns for the given bytes: the text with
/// every invalid UTF-8 sequence replaced by the replacement character. It
/// depends on the bytes alone.
pub uninterp spec fn lossy_decode(bytes: Seq<u8>) -> Seq<char>;

/// Relies on `String::from_utf8_lossy`: decodes bytes as UTF-8, replacing
/// invalid sequences with U+FFFD; empty input decodes to the empty string.
#[verifier::external_body]
fn decode_lossy(bytes: &[u8]) -> (r: String)
    ensures
        r@ == lossy_decode(bytes@),
        bytes@.len() == 0 ==> r@.len() == 0,
{
    String::from_utf8_lossy(bytes).into_owned()
}

/// The concatenation of a sequence of text fragments, in order.
pub open spec fn concat_texts(cs: Seq<Seq<char>>) -> Seq<char>
    decreases cs.len(),
{
    if cs.len() == 0 {
        Seq::empty()
    } else {
        concat_texts(cs.drop_last()) + cs.last()
    }
}

/// `max(0, a - b)`: saturating subtraction over mathematical integers.
pub open spec fn sat_sub(a: int, b: int) -> int {
    if a >= b {
        a - b
    } else {
        0
    }
}

/// `a + b`, clamped at `usize::MAX` as the executable saturating addition is.
pub open spec fn sat_add_usize(a: int, b: int) -> int {
    if a + b <= usize::MAX {
        a + b
    } else {
        usize::MAX as int
    }
}

/// The mathematical model of one stream's state.
#[verifier::ext_equal]
pub ghost struct StreamModel {
    /// The concatenation of every chunk appended so far.
    pub text: Seq<char>,
    /// True until the upstream reader reports end-of-file or a read error.
    pub open: bool,
    /// Index of the top display line currently visible.
    pub offset: int,
    /// When true, the offset is driven to keep the last line visible.
    pub autoscroll: bool,
}

/// The state of a freshly created stream: no text, open, at the top,
/// autoscrolling.
pub open spec fn init_stream() -> StreamModel {
    StreamModel { text: Seq::empty(), open: true, offset: 0, autoscroll: true }
}

/// The effect of one scroll command on a stream's scroll state. Every command
/// but `End` disengages autoscroll; `End` re-engages it and touches nothing
/// else. Offsets saturate exactly as the executable arithmetic does.
pub open spec fn scroll_step(m: StreamModel, cmd: ScrollCommand, page: int) -> StreamModel {
    match cmd {
        ScrollCommand::LineUp => StreamModel { offset: sat_sub(m.offset, 1), autoscroll: false, ..m },
        ScrollCommand::LineDown => StreamModel {
            offset: sat_add_usize(m.offset, 1),
            autoscroll: false,
            ..m
        },
        ScrollCommand::PageUp => StreamModel {
            offset: sat_sub(m.offset, page),
            autoscroll: false,
            ..m
        },
        ScrollCommand::PageDown => StreamModel {
            offset: sat_add_usize(m.offset, page),
            autoscroll: false,
            ..m
        },
        ScrollCommand::Home => StreamModel { offset: 0, autoscroll: false, ..m },
        ScrollCommand::End => StreamModel { autoscroll: true, ..m },
    }
}

/// Per-frame reconciliation of a stream's scroll state against the wrapped
/// line count `len` and the viewport height `h`: reaching the tail engages
/// autoscroll, and autoscroll drives the offset to `max(0, len - h)`.
pub open spec fn reconcile_step(m: StreamModel, len: int, h: int) -> StreamModel {
    let auto = m.autoscroll || m.offset + h >= len;
    let off = if auto {
        sat_sub(len, h)
    } else {
        m.offset
    };
    StreamModel { offset: off, autoscroll: auto, ..m }
}

/// One stream of child output with its scroll state.
pub struct StreamState {
    /// Text fragments in arrival order; append-only.
    pub chunks: Vec<String>,
    /// False once the reader reported end-of-file or a read error.
    pub open: bool,
    /// Index of the top visible display line.
    pub offset: usize,
    /// Whether the view follows the tail of the output.
    pub autoscroll: bool,
}

impl View for StreamState {
    type V = StreamModel;

    open spec fn view(&self) -> StreamModel {
        StreamModel {
            text: concat_texts(self.chunks@.map_values(|s: String| s@)),
            open: self.open,
            offset: self.offset as int,
            autoscroll: self.autoscroll,
        }
    }
}

impl StreamState {
    /// A fresh stream: empty, open, at the top, autoscrolling.
    pub fn new() -> (r: StreamState)
        ensures
            r@ == init_stream(),
    {
        let r = StreamState { chunks: Vec::new(), open: true, offset: 0, autoscroll: true };
        proof {
            assert(r.chunks@.map_values(|s: String| s@) =~= Seq::<Seq<char>>::empty());
            assert(r@ =~= init_stream());
        }
        r
    }

    /// Append one block of raw bytes, decoded lossily: the new chunk goes to
    /// the end, no earlier chunk is touched, the accumulated text only grows,
    /// and nothing else changes.
    pub fn append(&mut self, data: &[u8])
        ensures
            final(self)@ == (StreamModel {
                text: old(self)@.text + lossy_decode(data@),
                ..old(self)@
            }),
            old(self)@.text.is_prefix_of(final(self)@.text),
            final(self).chunks@.len() == old(self).chunks@.len() + 1,
            final(self).chunks@.drop_last() == old(self).chunks@,
            final(self).chunks@.last()@ == lossy_decode(data@),
    {
        let chunk = decode_lossy(data);
        let ghost pre = self.chunks@.map_values(|s: String| s@);
        self.chunks.push(chunk);
        proof {
            assert(self.chunks@.drop_last() =~= old(self).chunks@);
            let post = self.chunks@.map_values(|s: String| s@);
            assert(post =~= pre.push(lossy_decode(data@)));
            lemma_concat_texts_push(pre, lossy_decode(data@));
            lemma_concat_grows(old(self)@.text, lossy_decode(data@));
            assert(final(self)@ =~= (StreamModel {
                text: old(self)@.text + lossy_decode(data@),
                ..old(self)@
            }));
        }
    }

    /// Record end-of-stream: `open` goes false and never back.
    pub fn close(&mut self)
        ensures
            final(self)@ == (StreamModel { open: false, ..old(self)@ }),
    {
        self.open = false;
        proof {
            assert(final(self)@ =~= (StreamModel { open: false, ..old(self)@ }));
        }
    }

    /// Apply one scroll command with the given page size.
    pub fn apply_scroll(&mut self, cmd: ScrollCommand, page: usize)
        ensures
            final(self)@ == scroll_step(old(self)@, cmd, page as int),
    {
        match cmd {
            ScrollCommand::LineUp => {
                self.offset = self.offset.saturating_sub(1);
                self.autoscroll = false;
            },
            ScrollCommand::LineDown => {
                self.offset = self.offset.saturating_add(1);
                self.autoscroll = false;
            },
            ScrollCommand::PageUp => {
                self.offset = self.offset.saturating_sub(page);
                self.autoscroll = false;
            },
            ScrollCommand::PageDown => {
                self.offset = self.offset.saturating_add(page);
                self.autoscroll = false;
            },
            ScrollCommand::Home => {
                self.offset = 0;
                self.autoscroll = false;
            },
            ScrollCommand::End => {
                self.autoscroll = true;
            },
        }
        proof {
            assert(final(self)@ =~= scroll_step(old(self)@, cmd, page as int));
        }
    }

    /// Per-frame reconciliation against the wrapped line count and the
    /// viewport height. Afterwards the offset is within bounds, a view that
    /// reached the tail is autoscrolling, and autoscroll is never dropped.
    pub fn reconcile(&mut self, wrapped_len: usize, height: usize)
        ensures
            final(self)@ == reconcile_step(old(self)@, wrapped_len as int, height as int),
            final(self)@.offset <= sat_sub(wrapped_len as int, height as int),
            old(self)@.offset + height >= wrapped_len ==> final(self)@.autoscroll,
            old(self)@.autoscroll ==> final(self)@.autoscroll,
    {
        if wrapped_len <= height || self.offset >= wrapped_len - height {
            self.autoscroll = true;
        }
        if self.autoscroll {
            self.offset = wrapped_len.saturating_sub(height);
        }
        proof {
            assert(final(self)@ =~= reconcile_step(
                old(self)@,
                wrapped_len as int,
                height as int,
            ));
        }
    }
}

/// Appending one fragment extends the concatenation by exactly that fragment.
pub proof fn lemma_concat_texts_push(cs: Seq<Seq<char>>, t: Seq<char>)
    ensures
        concat_texts(cs.push(t)) == concat_texts(cs) + t,
{
    assert(cs.push(t).drop_last() =~= cs);
    assert(cs.push(t).last() == t);
}

/// A text is a prefix of itself extended by anything.
pub proof fn lemma_concat_grows(a: Seq<char>, b: Seq<char>)
    ensures
        a.is_prefix_of(a + b),
{
    assert(a =~= (a + b).subrange(0, a.len() as int));
}

/// Prefixes chain: a prefix of a prefix is a prefix.
pub proof fn lemma_prefix_trans(a: Seq<char>, b: Seq<char>, c: Seq<char>)
    requires
        a.is_prefix_of(b),
        b.is_prefix_of(c),
    ensures
        a.is_prefix_of(c),
{
    assert forall|i: int| 0 <= i < a.len() implies a[i] == c[i] by {
        assert(a[i] == b.subrange(0, a.len() as int)[i]);
        assert(b[i] == c.subrange(0, b.len() as int)[i]);
    }
    assert(a =~= c.subrange(0, a.len() as int));
}

/// After reconciliation the offset lies between 0 and `max(0, len - h)`,
/// whatever it was before.
pub proof fn lemma_offset_bounds(m: StreamModel, len: int, h: int)
    requires
        m.offset >= 0,
    ensures
        0 <= reconcile_step(m, len, h).offset <= sat_sub(len, h),
{
}

/// If autoscroll is engaged before a frame and there is at least one wrapped
/// line, the last line is visible after that frame: its index `len - 1` lies
/// in the viewport `[offset, offset + h)`.
pub proof fn lemma_autoscroll_tail_follow(m: StreamModel, len: int, h: int)
    requires
        m.autoscroll,
        m.offset >= 0,
        len >= 1,
        h >= 1,
    ensures
        reconcile_step(m, len, h).offset <= len - 1 < reconcile_step(m, len, h).offset + h,
{
}

/// Whatever scroll commands left `offset + h >= len`, the next frame engages
/// autoscroll.
pub proof fn lemma_sticky_bottom(m: StreamModel, len: int, h: int)
    requires
        m.offset + h >= len,
    ensures
        reconcile_step(m, len, h).autoscroll,
{
}

/// After reconciliation an autoscrolling view sits exactly at
/// `max(0, len - h)`, the offset that keeps the tail visible.
pub proof fn lemma_autoscroll_pins_offset(m: StreamModel, len: int, h: int)
    ensures
        reconcile_step(m, len, h).autoscroll ==> reconcile_step(m, len, h).offset == sat_sub(
            len,
            h,
        ),
{
}

} // verus!
