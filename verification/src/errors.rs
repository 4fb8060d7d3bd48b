//! An ordered collection of errors of one kind that reads as a single error.
use crate::text::{lemma_lines_of_extended_text, lines, single_line, Text};
use core::fmt::Debug;
use vstd::prelude::*;
use vstd::string::StringExecFns;

verus! {

/// The capability of being shown to a user as text.
///
/// `rendered` is the text as a mathematical sequence of characters, and
/// `display` computes exactly that text. `rendered` exists for contracts
/// only and is never run: an implementation in unverified code may give it
/// any body, and is trusted to display the same text for the same value.
pub trait Displayable {
    /// The text that `display` produces.
    spec fn rendered(&self) -> Text;

    /// Renders the value.
    fn display(&self) -> (text: String)
        ensures
            text@ == self.rendered(),
    ;
}

/// The first line of every non-empty report.
pub open spec fn header() -> Seq<char> {
    "error(s):"@
}

/// What separates one entry of a report from what stands before it: a line
/// break and an indentation of two spaces.
pub open spec fn entry_prefix() -> Seq<char> {
    "\n  "@
}

/// The entries of a report: each message behind a line break and two spaces,
/// in the order given.
pub open spec fn entries(messages: Seq<Seq<char>>) -> Seq<char>
    decreases messages.len(),
{
    if messages.len() == 0 {
        Seq::empty()
    } else {
        entries(messages.drop_last()) + entry_prefix() + messages.last()
    }
}

/// The text of a report on `messages`: nothing at all where there is nothing
/// to report, else the header followed by one entry per message.
pub open spec fn report(messages: Seq<Seq<char>>) -> Seq<char> {
    if messages.len() == 0 {
        Seq::empty()
    } else {
        header() + entries(messages)
    }
}

/// The indentation of an entry of a report: two spaces.
pub open spec fn indent() -> Seq<char> {
    "  "@
}

/// An entry put behind a text adds exactly one line: the indented message.
pub proof fn lemma_lines_of_added_entry(text: Seq<char>, message: Seq<char>)
    requires
        single_line(message),
    ensures
        lines(text + entry_prefix() + message) == lines(text).push(indent() + message),
{
    reveal_strlit("\n  ");
    reveal_strlit("  ");
    let broken = text.push('\n');
    assert(broken.drop_last() == text);
    assert(lines(broken) == lines(text).push(Seq::empty()));
    lemma_lines_of_extended_text(broken, indent() + message);
    assert(broken + (indent() + message) == text + entry_prefix() + message);
    assert(Seq::<char>::empty() + (indent() + message) == indent() + message);
    assert(lines(broken).drop_last() == lines(text));
}

/// The lines of the header followed by entries: the header, then each
/// message behind its indentation, in order.
pub proof fn lemma_lines_of_entries(messages: Seq<Seq<char>>)
    requires
        forall|i: int| 0 <= i < messages.len() ==> single_line(#[trigger] messages[i]),
    ensures
        lines(header() + entries(messages)) == seq![header()] + messages.map_values(
            |m: Seq<char>| indent() + m,
        ),
    decreases messages.len(),
{
    let indented = messages.map_values(|m: Seq<char>| indent() + m);
    if messages.len() == 0 {
        reveal_strlit("error(s):");
        assert(header() + entries(messages) == Seq::<char>::empty() + header());
        lemma_lines_of_extended_text(Seq::empty(), header());
        assert(Seq::<char>::empty() + header() == header());
        assert(seq![Seq::<char>::empty()].drop_last().push(header()) == seq![header()]);
        assert(seq![header()] + indented == seq![header()]);
    } else {
        let earlier = messages.drop_last();
        lemma_lines_of_entries(earlier);
        lemma_lines_of_added_entry(header() + entries(earlier), messages.last());
        assert(header() + entries(messages) == header() + entries(earlier) + entry_prefix()
            + messages.last());
        assert(seq![header()] + indented == (seq![header()] + earlier.map_values(
            |m: Seq<char>| indent() + m,
        )).push(indent() + messages.last()));
    }
}

/// A report on messages that hold no line break has one line more than
/// there are messages: the header, then, for each message in order, the
/// message behind exactly two spaces.
pub proof fn lemma_report_has_a_line_per_message(messages: Seq<Seq<char>>)
    requires
        messages.len() > 0,
        forall|i: int| 0 <= i < messages.len() ==> single_line(#[trigger] messages[i]),
    ensures
        lines(report(messages)).len() == messages.len() + 1,
        lines(report(messages))[0] == header(),
        forall|i: int|
            1 <= i <= messages.len() ==> #[trigger] lines(report(messages))[i] == indent()
                + messages[i - 1],
        forall|i: int|
            1 <= i <= messages.len() ==> {
                let line = #[trigger] lines(report(messages))[i];
                &&& line.len() == messages[i - 1].len() + 2
                &&& line[0] == ' '
                &&& line[1] == ' '
                &&& line.skip(2) == messages[i - 1]
            },
{
    lemma_lines_of_entries(messages);
    reveal_strlit("  ");
    let indented = messages.map_values(|m: Seq<char>| indent() + m);
    assert forall|i: int| 1 <= i <= messages.len() implies {
        let line = #[trigger] lines(report(messages))[i];
        &&& line == indent() + messages[i - 1]
        &&& line.skip(2) == messages[i - 1]
    } by {
        assert(lines(report(messages))[i] == indented[i - 1]);
    }
}

/// Errors of one kind, kept in the order in which they were reported.
///
/// Nothing is ever reordered, merged or dropped: the view of the collection
/// is the sequence of everything appended so far.
#[derive(Debug, PartialEq)]
pub struct Errors<E>(Vec<E>) where E: Displayable + Debug;

impl<E> View for Errors<E> where E: Displayable + Debug {
    type V = Seq<E>;

    closed spec fn view(&self) -> Seq<E> {
        self.0@
    }
}

impl<E> Errors<E> where E: Displayable + Debug {
    /// An empty collection.
    pub fn new() -> (errs: Self)
        ensures
            errs@ == Seq::<E>::empty(),
    {
        Errors(Vec::new())
    }

    /// Adds `err` behind everything already collected.
    pub fn append(&mut self, err: E)
        ensures
            final(self)@ == old(self)@.push(err),
    {
        self.0.push(err);
    }

    /// Whether nothing has been collected.
    #[must_use]
    pub fn is_empty(&self) -> (empty: bool)
        ensures
            empty == (self@.len() == 0),
    {
        self.0.is_empty()
    }

    /// The number of errors collected.
    #[must_use]
    pub fn len(&self) -> (count: usize)
        ensures
            count == self@.len(),
    {
        self.0.len()
    }

    /// The text of each collected error, in order.
    pub open spec fn messages(&self) -> Seq<Seq<char>> {
        self@.map_values(|e: E| e.rendered())
    }

    /// The error that was reported first, if any: the one cause a caller
    /// gets when it asks an aggregate for "the" underlying error.
    pub fn source(&self) -> (first: Option<&E>)
        ensures
            self@.len() == 0 ==> first is None,
            self@.len() > 0 ==> first == Some(&self@[0]),
    {
        if self.0.len() == 0 {
            None
        } else {
            Some(&self.0[0])
        }
    }
}

/// What a collection holds after each of `errs` has been appended in turn
/// to one that held `start`.
pub open spec fn appended_in_turn<E>(start: Seq<E>, errs: Seq<E>) -> Seq<E>
    decreases errs.len(),
{
    if errs.len() == 0 {
        start
    } else {
        appended_in_turn(start, errs.drop_last()).push(errs.last())
    }
}

/// Collecting a sequence of errors in bulk gives what appending each in
/// turn to an empty collection gives.
pub proof fn lemma_bulk_is_repeated_append<E>(errs: Seq<E>)
    ensures
        appended_in_turn(Seq::empty(), errs) == errs,
    decreases errs.len(),
{
    if errs.len() > 0 {
        lemma_bulk_is_repeated_append(errs.drop_last());
        assert(errs.drop_last().push(errs.last()) == errs);
    }
}

/// The displayed report on a non-empty collection, none of whose errors
/// displays a line break, has one line more than there are errors: the
/// header, then, for each error in the order of appending, its text behind
/// exactly two spaces.
pub proof fn lemma_display_has_a_line_per_error<E>(errs: Errors<E>) where E: Displayable + Debug
    requires
        errs@.len() > 0,
        forall|i: int| 0 <= i < errs@.len() ==> single_line(#[trigger] errs@[i].rendered()),
    ensures
        lines(errs.rendered()).len() == errs@.len() + 1,
        lines(errs.rendered())[0] == header(),
        forall|i: int|
            1 <= i <= errs@.len() ==> #[trigger] lines(errs.rendered())[i] == indent() + errs@[i
                - 1].rendered(),
{
    lemma_report_has_a_line_per_message(errs.messages());
}

/// Whatever state a collection is in, `is_empty` answers `true` exactly
/// when `len` answers zero.
pub proof fn lemma_empty_means_no_length<E>(errs: &Errors<E>, empty: bool, count: usize) where
    E: Displayable + Debug,
    requires
        call_ensures(Errors::<E>::is_empty, (errs,), empty),
        call_ensures(Errors::<E>::len, (errs,), count),
    ensures
        empty <==> count == 0,
{
}

/// The source of a collection is the error that was appended first, however
/// many were appended after it: appending to a collection that has a source
/// leaves the source as it is, and appending to an empty one makes the
/// appended error the source.
pub proof fn lemma_source_is_first_appended<E>(
    before: &Errors<E>,
    after: &Errors<E>,
    err: E,
    first: Option<&E>,
    second: Option<&E>,
) where E: Displayable + Debug
    requires
        after@ == before@.push(err),
        call_ensures(Errors::<E>::source, (before,), first),
        call_ensures(Errors::<E>::source, (after,), second),
    ensures
        first is None <==> before@.len() == 0,
        first is Some ==> second == first,
        first is None ==> second == Some(&err),
{
}

/// Displaying a value twice gives the same text twice.
pub proof fn lemma_display_is_repeatable<T: Displayable>(value: &T, once: String, again: String)
    requires
        call_ensures(T::display, (value,), once),
        call_ensures(T::display, (value,), again),
    ensures
        once@ == again@,
{
}

impl<E> From<Vec<E>> for Errors<E> where E: Displayable + Debug {
    /// Collects `value` as it stands: the same errors in the same order, as
    /// if each had been appended in turn to an empty collection.
    fn from(value: Vec<E>) -> (errs: Self)
        ensures
            errs@ == value@,
            errs@ == appended_in_turn(Seq::empty(), value@),
    {
        proof {
            lemma_bulk_is_repeated_append(value@);
        }
        Errors(value)
    }
}

impl<E> vstd::std_specs::convert::FromSpecImpl<Vec<E>> for Errors<E> where E: Displayable + Debug {
    open spec fn obeys_from_spec() -> bool {
        true
    }

    closed spec fn from_spec(value: Vec<E>) -> Self {
        Errors(value)
    }
}

impl<E> Displayable for Errors<E> where E: Displayable + Debug {
    open spec fn rendered(&self) -> Seq<char> {
        report(self.messages())
    }

    /// Renders the report: the empty string for an empty collection, else
    /// the header line and one indented line per error.
    fn display(&self) -> (text: String) {
        if self.0.is_empty() {
            return String::new();
        }
        let mut text = String::from_str("error(s):");
        let mut i: usize = 0;
        while i < self.0.len()
            invariant
                i <= self.0.len(),
                text@ == header() + entries(self.messages().take(i as int)),
            decreases self.0.len() - i,
        {
            let line = self.0[i].display();
            text.append("\n  ");
            text.append(line.as_str());
            proof {
                let upto = self.messages().take(i as int + 1);
                assert(upto.drop_last() == self.messages().take(i as int));
                assert(upto.last() == line@);
            }
            i += 1;
        }
        proof {
            assert(self.messages().take(i as int) == self.messages());
        }
        text
    }
}

} // verus!
