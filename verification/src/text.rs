//! Text as contracts see it: sequences of characters, and their lines.
use vstd::prelude::*;

verus! {

/// Text as a mathematical sequence of characters.
pub type Text = Seq<char>;

/// The characters of an optional string.
pub open spec fn optional_text(text: Option<String>) -> Option<Text> {
    match text {
        Some(t) => Some(t@),
        None => None,
    }
}

/// The characters of an optional string slice.
pub open spec fn optional_slice_text(text: Option<&str>) -> Option<Text> {
    match text {
        Some(t) => Some(t@),
        None => None,
    }
}

/// Whether `text` holds no line break.
pub open spec fn single_line(text: Seq<char>) -> bool {
    forall|i: int| 0 <= i < text.len() ==> text[i] != '\n'
}

/// The lines of a text: the pieces between its line breaks, so that a text
/// with `n` line breaks has `n + 1` lines.
pub open spec fn lines(text: Seq<char>) -> Seq<Seq<char>>
    decreases text.len(),
{
    if text.len() == 0 {
        seq![Seq::empty()]
    } else if text.last() == '\n' {
        lines(text.drop_last()).push(Seq::empty())
    } else {
        let before = lines(text.drop_last());
        before.drop_last().push(before.last().push(text.last()))
    }
}

/// Every text has at least one line.
pub proof fn lemma_lines_never_empty(text: Seq<char>)
    ensures
        lines(text).len() >= 1,
    decreases text.len(),
{
    if text.len() > 0 {
        lemma_lines_never_empty(text.drop_last());
    }
}

/// Text without a line break, put behind a text, lengthens its last line.
pub proof fn lemma_lines_of_extended_text(text: Seq<char>, tail: Seq<char>)
    requires
        single_line(tail),
    ensures
        lines(text + tail) == lines(text).drop_last().push(lines(text).last() + tail),
    decreases tail.len(),
{
    lemma_lines_never_empty(text);
    if tail.len() == 0 {
        assert(text + tail == text);
        assert(lines(text).last() + tail == lines(text).last());
        assert(lines(text).drop_last().push(lines(text).last()) == lines(text));
    } else {
        let shorter = tail.drop_last();
        lemma_lines_of_extended_text(text, shorter);
        assert((text + tail).drop_last() == text + shorter);
        assert((text + tail).last() == tail.last());
        let before = lines(text + shorter);
        assert(before.drop_last() == lines(text).drop_last());
        assert(before.last().push(tail.last()) == lines(text).last() + tail);
    }
}

} // verus!
