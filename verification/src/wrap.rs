//! Soft-wrapping of the accumulated text to the current panel width.

use vstd::prelude::*;
use vstd::string::StringExecFns;

use crate::stream::concat_texts;

verus! {

/// What `textwrap::wrap` returns for the given text and width: the display
/// lines after soft-wrapping, split at hard newlines and otherwise broken at
/// whitespace where possible. It depends on the text and the width alone, so
/// equal inputs always yield equal lines.
pub uninterp spec fn wrap_of(text: Seq<char>, width: nat) -> Seq<Seq<char>>;

/// Relies on `textwrap::wrap`: soft-wraps the text at the given width.
#[verifier::external_body]
fn wrap_text(text: &str, width: usize) -> (r: Vec<String>)
    ensures
        r@.map_values(|s: String| s@) == wrap_of(text@, width as nat),
{
    textwrap::wrap(text, width).into_iter().map(|line| line.into_owned()).collect()
}

/// The display lines of the given text at the given width: no lines at all
/// when the text is empty, else the soft-wrapped lines.
pub open spec fn display_lines(text: Seq<char>, width: nat) -> Seq<Seq<char>> {
    if text.len() == 0 {
        Seq::empty()
    } else {
        wrap_of(text, width)
    }
}

/// Flatten the accumulated chunks of one stream and soft-wrap the result to
/// the panel width, yielding the display lines for this frame. An empty
/// stream has no display lines.
pub fn wrapped_lines(chunks: &Vec<String>, width: usize) -> (r: Vec<String>)
    ensures
        r@.map_values(|s: String| s@) == display_lines(
            concat_texts(chunks@.map_values(|s: String| s@)),
            width as nat,
        ),
{
    let ghost views = chunks@.map_values(|s: String| s@);
    let mut text = String::new();
    proof {
        assert(views.take(0) =~= Seq::<Seq<char>>::empty());
    }
    let mut i: usize = 0;
    while i < chunks.len()
        invariant
            i <= chunks.len(),
            views == chunks@.map_values(|s: String| s@),
            text@ == concat_texts(views.take(i as int)),
        decreases chunks.len() - i,
    {
        text.append(chunks[i].as_str());
        proof {
            assert(views.take(i + 1).drop_last() =~= views.take(i as int));
            assert(views.take(i + 1).last() == views[i as int]);
        }
        i = i + 1;
    }
    proof {
        assert(views.take(chunks.len() as int) =~= views);
    }
    if text.as_str().is_empty() {
        let r: Vec<String> = Vec::new();
        proof {
            assert(r@.map_values(|s: String| s@) =~= Seq::<Seq<char>>::empty());
        }
        r
    } else {
        wrap_text(text.as_str(), width)
    }
}

} // verus!
