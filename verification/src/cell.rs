//! Cells of a result set and the text that each one is shown as.

use crate::text::{lemma_without_commas_concat, lemma_without_commas_plain, without_commas};
use thousands::Separable;
use vstd::prelude::*;

verus! {

/// One value of a result set, tagged by its storage class.
#[derive(Debug, PartialEq, Eq)]
pub enum Cell {
    /// No value.
    Null,
    /// A signed integer.
    Integer(i64),
    /// A real number, held as the text that the engine's value prints as.
    Real(String),
    /// A text, shown verbatim.
    Text(String),
    /// Binary content, which is never shown.
    Binary(Vec<u8>),
}

/// Whether `c` is one of the digits `0` to `9`.
pub open spec fn is_digit(c: char) -> bool {
    '0' <= c && c <= '9'
}

/// The number of characters of `s` before its first digit.
pub open spec fn leading_others(s: Seq<char>) -> int
    decreases s.len(),
{
    if s.len() == 0 || is_digit(s[0]) {
        0
    } else {
        1 + leading_others(s.skip(1))
    }
}

/// The number of digits that `s` starts with.
pub open spec fn leading_digits(s: Seq<char>) -> int
    decreases s.len(),
{
    if s.len() == 0 || !is_digit(s[0]) {
        0
    } else {
        1 + leading_digits(s.skip(1))
    }
}

/// `digits` with a comma before every group of three, counted from the right.
pub open spec fn group_threes(digits: Seq<char>) -> Seq<char>
    decreases digits.len(),
{
    if digits.len() <= 3 {
        digits
    } else {
        group_threes(digits.take(digits.len() - 3)) + seq![','] + digits.skip(digits.len() - 3)
    }
}

/// `s` with its first run of digits grouped by commas; what precedes and what
/// follows that run is kept as it is.
pub open spec fn comma_grouped(s: Seq<char>) -> Seq<char> {
    let start = leading_others(s);
    let count = leading_digits(s.skip(start));
    s.take(start) + group_threes(s.subrange(start, start + count)) + s.skip(start + count)
}

/// The character of the digit `d`.
pub open spec fn digit_char(d: int) -> char {
    (d + 48) as char
}

/// The digits of `n` in base ten, most significant first.
pub open spec fn decimal_digits(n: nat) -> Seq<char>
    decreases n,
{
    if n < 10 {
        seq![digit_char(n as int)]
    } else {
        decimal_digits(n / 10).push(digit_char((n % 10) as int))
    }
}

/// `i` in base ten, with a minus sign when it is negative.
pub open spec fn decimal_text(i: int) -> Seq<char> {
    if i < 0 {
        seq!['-'] + decimal_digits((-i) as nat)
    } else {
        decimal_digits(i as nat)
    }
}

/// The text that a cell is shown as.
pub open spec fn display_text(cell: Cell) -> Seq<char> {
    match cell {
        Cell::Null => "NULL"@,
        Cell::Integer(i) => comma_grouped(decimal_text(i as int)),
        Cell::Real(text) => comma_grouped(text@),
        Cell::Text(text) => text@,
        Cell::Binary(_) => "BLOB"@,
    }
}

/// Calls `thousands::Separable::separate_with_commas` on a string slice. The
/// crate looks for the first run of ASCII digits in the text and inserts a
/// comma every three digits of that run, counted from its right end; the rest
/// of the text is copied unchanged.
#[verifier::external_body]
fn separate_with_commas(text: &str) -> (grouped: String)
    ensures
        grouped@ == comma_grouped(text@),
{
    text.separate_with_commas()
}

fn digit_of(d: u64) -> (c: char)
    requires
        d < 10,
    ensures
        c == digit_char(d as int),
{
    (d as u8 + 48u8) as char
}

/// `i` written in base ten.
pub fn decimal(i: i64) -> (text: String)
    ensures
        text@ == decimal_text(i as int),
{
    let negative = i < 0;
    let magnitude: u64 = if negative {
        (-(i + 1)) as u64 + 1
    } else {
        i as u64
    };
    let mut reversed: Vec<char> = Vec::new();
    let mut rest: u64 = magnitude;
    while rest >= 10
        invariant
            decimal_digits(magnitude as nat) =~= decimal_digits(rest as nat)
                + reversed@.reverse(),
        decreases rest,
    {
        reversed.push(digit_of(rest % 10));
        rest = rest / 10;
    }
    reversed.push(digit_of(rest));
    assert(decimal_digits(magnitude as nat) =~= reversed@.reverse());
    let mut text = String::new();
    if negative {
        text.push('-');
    }
    let ghost sign = text@;
    let mut k: usize = reversed.len();
    while k > 0
        invariant
            k <= reversed.len(),
            text@ =~= sign + reversed@.reverse().take(reversed.len() - k),
        decreases k,
    {
        k = k - 1;
        text.push(reversed[k]);
    }
    assert(reversed@.reverse().take(reversed.len() as int) =~= reversed@.reverse());
    text
}

/// The display text of a cell. Every cell has one: `NULL` for a missing
/// value, `BLOB` for binary content, a text as it is, and a number in base
/// ten with its integer part grouped by commas.
pub fn normalize(cell: &Cell) -> (text: String)
    ensures
        text@ == display_text(*cell),
{
    match cell {
        Cell::Null => "NULL".to_owned(),
        Cell::Integer(i) => {
            let plain = decimal(*i);
            separate_with_commas(plain.as_str())
        },
        Cell::Real(text) => separate_with_commas(text.as_str()),
        Cell::Text(text) => text.clone(),
        Cell::Binary(_) => "BLOB".to_owned(),
    }
}

/// Grouping only inserts commas: once the commas are removed, a grouped run
/// of digits is the run it was made from.
pub proof fn lemma_group_threes_adds_commas(digits: Seq<char>)
    ensures
        without_commas(group_threes(digits)) == without_commas(digits),
    decreases digits.len(),
{
    if digits.len() > 3 {
        let head = digits.take(digits.len() - 3);
        let tail = digits.skip(digits.len() - 3);
        lemma_group_threes_adds_commas(head);
        lemma_without_commas_concat(group_threes(head) + seq![','], tail);
        lemma_without_commas_concat(group_threes(head), seq![',']);
        assert(without_commas(seq![',']) =~= Seq::<char>::empty()) by {
            reveal_with_fuel(without_commas, 2);
            assert(seq![','].drop_last() =~= Seq::<char>::empty());
        }
        assert(without_commas(group_threes(head)) + Seq::<char>::empty() =~= without_commas(
            head,
        ));
        lemma_without_commas_concat(head, tail);
        assert(head + tail =~= digits);
    }
}

/// Removing the commas undoes the grouping: a grouped text and the text it
/// was made from are the same once their commas are removed.
pub proof fn lemma_grouping_is_undone(s: Seq<char>)
    ensures
        without_commas(comma_grouped(s)) == without_commas(s),
{
    let start = leading_others(s);
    let count = leading_digits(s.skip(start));
    lemma_leading_others_bound(s);
    lemma_leading_digits_bound(s.skip(start));
    let before = s.take(start);
    let run = s.subrange(start, start + count);
    let after = s.skip(start + count);
    lemma_group_threes_adds_commas(run);
    lemma_without_commas_concat(before + group_threes(run), after);
    lemma_without_commas_concat(before, group_threes(run));
    lemma_without_commas_concat(before + run, after);
    lemma_without_commas_concat(before, run);
    assert(before + run + after =~= s);
}

/// The count of leading non-digits is within the text.
pub proof fn lemma_leading_others_bound(s: Seq<char>)
    ensures
        0 <= leading_others(s) <= s.len(),
    decreases s.len(),
{
    if !(s.len() == 0 || is_digit(s[0])) {
        lemma_leading_others_bound(s.skip(1));
    }
}

/// The count of leading digits is within the text.
pub proof fn lemma_leading_digits_bound(s: Seq<char>)
    ensures
        0 <= leading_digits(s) <= s.len(),
    decreases s.len(),
{
    if !(s.len() == 0 || !is_digit(s[0])) {
        lemma_leading_digits_bound(s.skip(1));
    }
}

/// The decimal digits of a number hold no comma.
pub proof fn lemma_decimal_digits_hold_no_comma(n: nat)
    ensures
        forall|i: int| 0 <= i < decimal_digits(n).len() ==> decimal_digits(n)[i] != ',',
    decreases n,
{
    let last = digit_char((n % 10) as int);
    assert(last != ',') by {
        assert(last as int == n % 10 + 48);
        assert(',' as int == 44);
    }
    if n >= 10 {
        lemma_decimal_digits_hold_no_comma(n / 10);
        let shorter = decimal_digits(n / 10);
        assert forall|i: int| 0 <= i < decimal_digits(n).len() implies decimal_digits(n)[i]
            != ',' by {
            if i < shorter.len() {
                assert(shorter[i] != ',');
            }
        }
    }
}

/// An integer that was shown with grouped digits is exported as the plain
/// number: without its commas the display text of an integer cell is the
/// integer in base ten.
pub proof fn lemma_integer_is_exported_plain(i: i64)
    ensures
        without_commas(display_text(Cell::Integer(i))) == decimal_text(i as int),
{
    let plain = decimal_text(i as int);
    lemma_grouping_is_undone(plain);
    if i < 0 {
        lemma_decimal_digits_hold_no_comma((-i) as nat);
    } else {
        lemma_decimal_digits_hold_no_comma(i as nat);
    }
    lemma_without_commas_plain(plain);
}

/// A missing value and binary content are shown as fixed tokens of four
/// letters, whatever the content.
pub proof fn lemma_fixed_tokens()
    ensures
        display_text(Cell::Null) == seq!['N', 'U', 'L', 'L'],
        forall|content: Vec<u8>|
            #[trigger] display_text(Cell::Binary(content)) == seq!['B', 'L', 'O', 'B'],
{
    reveal_strlit("NULL");
    reveal_strlit("BLOB");
    assert("NULL"@ =~= seq!['N', 'U', 'L', 'L']);
    assert("BLOB"@ =~= seq!['B', 'L', 'O', 'B']);
}

} // verus!
