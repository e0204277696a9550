//! Example sentences of a word: what a store's payload yields, and the
//! rendering of their emphasis marks.

use vstd::prelude::*;

verus! {

/// A sentence in the language learned, with its translation. Either text
/// may mark spans to emphasise with `#` on both sides.
#[derive(Debug, PartialEq, Eq)]
pub struct Example {
    pub original: String,
    pub translate: String,
}

/// An [`Example`] as plain text.
pub struct ExampleView {
    pub original: Seq<char>,
    pub translate: Seq<char>,
}

impl View for Example {
    type V = ExampleView;

    open spec fn view(&self) -> ExampleView {
        ExampleView { original: self.original@, translate: self.translate@ }
    }
}

impl DeepView for Example {
    type V = ExampleView;

    open spec fn deep_view(&self) -> ExampleView {
        self@
    }
}

impl Clone for Example {
    fn clone(&self) -> (copy: Example)
        ensures
            copy@ == self@,
    {
        Example { original: self.original.clone(), translate: self.translate.clone() }
    }
}

/// What the examples column of one row held, once its text has been
/// decoded.
#[derive(Debug, PartialEq, Eq)]
pub enum ExamplesPayload {
    /// The column was empty: the app keeps no examples, or the word has
    /// none.
    Absent,
    /// The column held text that is no list of examples.
    Malformed,
    /// The column held this list.
    Decoded(Vec<Example>),
}

/// An [`ExamplesPayload`] as plain text.
pub enum ExamplesPayloadView {
    Absent,
    Malformed,
    Decoded(Seq<ExampleView>),
}

impl View for ExamplesPayload {
    type V = ExamplesPayloadView;

    open spec fn view(&self) -> ExamplesPayloadView {
        match self {
            ExamplesPayload::Absent => ExamplesPayloadView::Absent,
            ExamplesPayload::Malformed => ExamplesPayloadView::Malformed,
            ExamplesPayload::Decoded(list) => ExamplesPayloadView::Decoded(list.deep_view()),
        }
    }
}

impl DeepView for ExamplesPayload {
    type V = ExamplesPayloadView;

    open spec fn deep_view(&self) -> ExamplesPayloadView {
        self@
    }
}

/// The examples that a word gets from a payload: the decoded list, and
/// none where the payload is absent or malformed.
pub open spec fn examples_of(payload: ExamplesPayloadView) -> Option<Seq<ExampleView>> {
    match payload {
        ExamplesPayloadView::Decoded(list) => Some(list),
        _ => None,
    }
}

/// The number of `#` in a text.
pub open spec fn hashes(s: Seq<char>) -> nat
    decreases s.len(),
{
    if s.len() == 0 {
        0
    } else {
        hashes(s.drop_last()) + if s.last() == '#' {
            1nat
        } else {
            0nat
        }
    }
}

/// The markup that stands for a `#` which `before` others precede: an
/// opening tag for the first, third, fifth, a closing tag for those between.
pub open spec fn emphasis_tag(before: nat) -> Seq<char> {
    if before % 2 == 0 {
        "<b>"@
    } else {
        "</b>"@
    }
}

/// A text with each `#` replaced by its emphasis tag and every other
/// character kept. A text with an odd number of `#` ends with an emphasis
/// that is opened and not closed.
pub open spec fn bold_markup(s: Seq<char>) -> Seq<char>
    decreases s.len(),
{
    if s.len() == 0 {
        Seq::empty()
    } else if s.last() == '#' {
        bold_markup(s.drop_last()) + emphasis_tag(hashes(s.drop_last()))
    } else {
        bold_markup(s.drop_last()).push(s.last())
    }
}

/// An example with both texts rendered by [`bold_markup`].
pub open spec fn rendered(e: ExampleView) -> ExampleView {
    ExampleView { original: bold_markup(e.original), translate: bold_markup(e.translate) }
}

/// "asdf #asdf# asdf" -> "asdf <b>asdf</b> asdf"
pub fn hash2bold(s: &str) -> (out: String)
    ensures
        out@ == bold_markup(s@),
{
    let n = s.unicode_len();
    let mut out = String::new();
    let mut is_open = true;
    // the text from `start` up to the character at hand is not yet in `out`
    let mut start: usize = 0;
    let mut i: usize = 0;
    assert(s@.take(0) =~= Seq::<char>::empty());
    for c in it: s.chars()
        invariant
            it.seq() == s@,
            i == it.index(),
            n == s@.len(),
            start <= i <= n,
            is_open == (hashes(s@.take(i as int)) % 2 == 0),
            out@ + s@.subrange(start as int, i as int) == bold_markup(s@.take(i as int)),
    {
        let ghost seen = s@.take(i as int);
        assert(s@.take(i as int + 1).drop_last() =~= seen);
        assert(s@.take(i as int + 1).last() == c);
        if c == '#' {
            out.append(s.substring_char(start, i));
            out.append(if is_open { "<b>" } else { "</b>" });
            is_open = !is_open;
            start = i + 1;
            assert(out@ + s@.subrange(start as int, i as int + 1) =~= bold_markup(seen)
                + emphasis_tag(hashes(seen)));
        } else {
            assert(out@ + s@.subrange(start as int, i as int + 1) =~= (out@ + s@.subrange(
                start as int,
                i as int,
            )).push(c));
        }
        i = i + 1;
    }
    assert(s@.take(n as int) =~= s@);
    out.append(s.substring_char(start, n));
    out
}

impl Example {
    /// The examples that a word gets from what its row held: the decoded
    /// list, and none where the payload is absent or malformed. A payload
    /// that does not decode costs the word its examples and nothing else.
    pub fn from_db(payload: ExamplesPayload) -> (examples: Option<Vec<Example>>)
        ensures
            examples.deep_view() == examples_of(payload@),
    {
        match payload {
            ExamplesPayload::Decoded(list) => Some(list),
            _ => None,
        }
    }

    /// The example as a card shows it: both texts with their `#` turned into
    /// emphasis tags.
    pub fn to_anki(&self) -> (shown: Example)
        ensures
            shown@ == rendered(self@),
    {
        Example {
            original: hash2bold(self.original.as_str()),
            translate: hash2bold(self.translate.as_str()),
        }
    }
}

} // verus!
