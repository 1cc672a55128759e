//! The export directive: an input line is a SQL statement, optionally followed
//! by the marker `|out=` and the path of a file that receives the result.

use crate::text::{chars_of, text_of_range, trimmed, trimmed_text};
use vstd::prelude::*;

verus! {

/// What one input line asks for.
#[derive(Debug)]
pub struct Directive {
    /// The statement to execute.
    pub sql_text: String,
    /// Where the result is also written, when the line says so.
    pub destination: Option<String>,
}

/// The mathematical value of a [`Directive`].
pub struct DirectiveView {
    pub sql_text: Seq<char>,
    pub destination: Option<Seq<char>>,
}

impl View for Directive {
    type V = DirectiveView;

    open spec fn view(&self) -> DirectiveView {
        DirectiveView {
            sql_text: self.sql_text@,
            destination: match self.destination {
                Some(path) => Some(path@),
                None => None,
            },
        }
    }
}

/// The marker `|out=`.
pub open spec fn marker() -> Seq<char> {
    seq!['|', 'o', 'u', 't', '=']
}

/// Whether the marker stands in `line` at position `at`.
pub open spec fn marker_at(line: Seq<char>, at: int) -> bool {
    &&& 0 <= at
    &&& at + 5 <= line.len()
    &&& line[at] == '|'
    &&& line[at + 1] == 'o'
    &&& line[at + 2] == 'u'
    &&& line[at + 3] == 't'
    &&& line[at + 4] == '='
}

/// Whether the marker occurs in `line`.
pub open spec fn has_marker(line: Seq<char>) -> bool {
    exists|at: int| marker_at(line, at)
}

/// Whether `at` is the leftmost position of the marker in `line`.
pub open spec fn is_first_marker(line: Seq<char>, at: int) -> bool {
    marker_at(line, at) && forall|j: int| j < at ==> !marker_at(line, j)
}

/// Whether `at` is the rightmost position of the marker in `line`.
pub open spec fn is_last_marker(line: Seq<char>, at: int) -> bool {
    marker_at(line, at) && forall|j: int| at < j ==> !marker_at(line, j)
}

/// The leftmost position of the marker in a line that has one.
pub open spec fn first_marker(line: Seq<char>) -> int {
    choose|at: int| is_first_marker(line, at)
}

/// The rightmost position of the marker in a line that has one.
pub open spec fn last_marker(line: Seq<char>) -> int {
    choose|at: int| is_last_marker(line, at)
}

/// The directive that `line` stands for. Without a marker the whole line is
/// the statement. With one, the statement is what precedes the leftmost
/// marker, and the destination is what follows the rightmost one, trimmed.
pub open spec fn parsed(line: Seq<char>) -> DirectiveView {
    if has_marker(line) {
        DirectiveView {
            sql_text: line.take(first_marker(line)),
            destination: Some(trimmed(line.skip(last_marker(line) + 5))),
        }
    } else {
        DirectiveView { sql_text: line, destination: None }
    }
}

/// A line has at most one leftmost marker position.
pub proof fn lemma_first_marker_unique(line: Seq<char>, at: int)
    requires
        is_first_marker(line, at),
    ensures
        has_marker(line),
        first_marker(line) == at,
{
    let chosen = first_marker(line);
    assert(is_first_marker(line, chosen));
    if chosen < at {
        assert(!marker_at(line, chosen));
    }
    if at < chosen {
        assert(!marker_at(line, at));
    }
}

/// A line has at most one rightmost marker position.
pub proof fn lemma_last_marker_unique(line: Seq<char>, at: int)
    requires
        is_last_marker(line, at),
    ensures
        has_marker(line),
        last_marker(line) == at,
{
    let chosen = last_marker(line);
    assert(is_last_marker(line, chosen));
    if chosen < at {
        assert(!marker_at(line, at));
    }
    if at < chosen {
        assert(!marker_at(line, chosen));
    }
}

fn marker_here(chars: &Vec<char>, at: usize) -> (b: bool)
    requires
        at + 5 <= chars.len(),
    ensures
        b == marker_at(chars@, at as int),
{
    chars[at] == '|' && chars[at + 1] == 'o' && chars[at + 2] == 'u' && chars[at + 3] == 't'
        && chars[at + 4] == '='
}

/// The leftmost position of the marker at or after `from`, if there is one.
fn find_marker(chars: &Vec<char>, from: usize) -> (found: Option<usize>)
    ensures
        match found {
            Some(at) => from <= at && marker_at(chars@, at as int) && forall|j: int|
                from <= j < at ==> !marker_at(chars@, j),
            None => forall|j: int| from <= j ==> !marker_at(chars@, j),
        },
{
    let n = chars.len();
    if n < 5 || from > n - 5 {
        return None;
    }
    let mut i: usize = from;
    while i <= n - 5
        invariant
            n == chars.len(),
            n >= 5,
            from <= i <= n - 4,
            forall|j: int| from <= j < i ==> !marker_at(chars@, j),
        decreases n - i,
    {
        if marker_here(chars, i) {
            return Some(i);
        }
        i = i + 1;
    }
    None
}

/// Splits an input line into the statement to execute and the optional
/// destination of the export.
pub fn parse_directive(line: &str) -> (directive: Directive)
    ensures
        directive@ == parsed(line@),
        !has_marker(line@) ==> directive.sql_text@ == line@ && directive.destination is None,
        has_marker(line@) ==> directive.destination is Some,
{
    let chars = chars_of(line);
    match find_marker(&chars, 0) {
        None => {
            assert(!has_marker(line@));
            Directive { sql_text: line.to_owned(), destination: None }
        },
        Some(first) => {
            let mut last: usize = first;
            let mut next = find_marker(&chars, last + 1);
            while next.is_some()
                invariant
                    first <= last,
                    last + 5 <= chars.len(),
                    marker_at(chars@, last as int),
                    match next {
                        Some(at) => last < at && marker_at(chars@, at as int) && forall|j: int|
                            last < j < at ==> !marker_at(chars@, j),
                        None => forall|j: int| last < j ==> !marker_at(chars@, j),
                    },
                decreases chars.len() - last,
            {
                last = next.unwrap();
                next = find_marker(&chars, last + 1);
            }
            proof {
                lemma_first_marker_unique(line@, first as int);
                lemma_last_marker_unique(line@, last as int);
            }
            let sql_text = text_of_range(&chars, 0, first);
            let destination = trimmed_text(&chars, last + 5);
            Directive { sql_text, destination: Some(destination) }
        },
    }
}

/// Among the positions of the marker there is a leftmost one.
pub proof fn lemma_first_marker_exists(line: Seq<char>, at: int)
    requires
        marker_at(line, at),
    ensures
        is_first_marker(line, first_marker(line)),
        first_marker(line) <= at,
    decreases at,
{
    if exists|j: int| j < at && marker_at(line, j) {
        let j = choose|j: int| j < at && marker_at(line, j);
        lemma_first_marker_exists(line, j);
    } else {
        assert(is_first_marker(line, at));
        lemma_first_marker_unique(line, at);
    }
}

/// Among the positions of the marker there is a rightmost one.
pub proof fn lemma_last_marker_exists(line: Seq<char>, at: int)
    requires
        marker_at(line, at),
    ensures
        is_last_marker(line, last_marker(line)),
        at <= last_marker(line),
    decreases line.len() - at,
{
    if exists|j: int| at < j && marker_at(line, j) {
        let j = choose|j: int| at < j && marker_at(line, j);
        lemma_last_marker_exists(line, j);
    } else {
        assert(is_last_marker(line, at));
        lemma_last_marker_unique(line, at);
    }
}

/// A line without the marker is its own statement and has no destination.
pub proof fn lemma_line_without_marker(line: Seq<char>)
    requires
        !has_marker(line),
    ensures
        parsed(line).sql_text == line,
        parsed(line).destination is None,
{
}

/// A line with the marker has a destination, and its statement is the part of
/// the line before the leftmost marker.
pub proof fn lemma_line_with_marker(line: Seq<char>)
    requires
        has_marker(line),
    ensures
        parsed(line).destination is Some,
        is_first_marker(line, first_marker(line)),
        is_last_marker(line, last_marker(line)),
        first_marker(line) <= last_marker(line),
        parsed(line).sql_text == line.take(first_marker(line)),
        parsed(line).sql_text + marker() == line.take(first_marker(line) + 5),
{
    let at = choose|at: int| marker_at(line, at);
    lemma_first_marker_exists(line, at);
    lemma_last_marker_exists(line, at);
    let first = first_marker(line);
    assert(line.take(first) + marker() =~= line.take(first + 5));
}

/// The statement of a directive holds no marker: parsing it again gives the
/// same statement and no destination.
pub proof fn lemma_statement_has_no_marker(line: Seq<char>)
    ensures
        !has_marker(parsed(line).sql_text),
        parsed(parsed(line).sql_text).sql_text == parsed(line).sql_text,
        parsed(parsed(line).sql_text).destination is None,
{
    if has_marker(line) {
        lemma_line_with_marker(line);
        let first = first_marker(line);
        let statement = line.take(first);
        assert forall|j: int| !marker_at(statement, j) by {
            if marker_at(statement, j) {
                assert(marker_at(line, j));
            }
        }
    }
}

} // verus!
