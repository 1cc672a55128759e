//! Character-level helpers shared by the parsing and formatting modules.

use vstd::prelude::*;

verus! {

/// `String::push` appends exactly one character to the end of the string.
pub assume_specification[ String::push ](s: &mut String, c: char)
    ensures
        final(s)@ == old(s)@.push(c),
;

/// The characters of `text`, in order.
pub fn chars_of(text: &str) -> (chars: Vec<char>)
    ensures
        chars@ == text@,
{
    let mut chars: Vec<char> = Vec::new();
    for c in it: text.chars()
        invariant
            it.seq() == text@,
            chars@ == text@.take(it.index() as int),
    {
        chars.push(c);
    }
    chars
}

/// The text made of `chars[from..to]`.
pub(crate) fn text_of_range(chars: &Vec<char>, from: usize, to: usize) -> (text: String)
    requires
        from <= to <= chars.len(),
    ensures
        text@ == chars@.subrange(from as int, to as int),
{
    let mut text = String::new();
    let mut i: usize = from;
    while i < to
        invariant
            from <= i <= to <= chars.len(),
            text@ == chars@.subrange(from as int, i as int),
        decreases to - i,
    {
        text.push(chars[i]);
        i = i + 1;
    }
    text
}

/// Whether `c` is white space: the code points with the Unicode property
/// `White_Space`.
pub open spec fn is_space(c: char) -> bool {
    let p = c as u32;
    ||| 0x09 <= p <= 0x0D
    ||| p == 0x20
    ||| p == 0x85
    ||| p == 0xA0
    ||| p == 0x1680
    ||| 0x2000 <= p <= 0x200A
    ||| p == 0x2028
    ||| p == 0x2029
    ||| p == 0x202F
    ||| p == 0x205F
    ||| p == 0x3000
}

/// Decides [`is_space`].
pub fn is_space_char(c: char) -> (b: bool)
    ensures
        b == is_space(c),
{
    let p: u32 = c as u32;
    (0x09 <= p && p <= 0x0D) || p == 0x20 || p == 0x85 || p == 0xA0 || p == 0x1680 || (0x2000 <= p
        && p <= 0x200A) || p == 0x2028 || p == 0x2029 || p == 0x202F || p == 0x205F || p == 0x3000
}

/// `s` without its leading white space.
pub open spec fn trim_start(s: Seq<char>) -> Seq<char>
    decreases s.len(),
{
    if s.len() > 0 && is_space(s[0]) {
        trim_start(s.skip(1))
    } else {
        s
    }
}

/// `s` without its trailing white space.
pub open spec fn trim_end(s: Seq<char>) -> Seq<char>
    decreases s.len(),
{
    if s.len() > 0 && is_space(s.last()) {
        trim_end(s.drop_last())
    } else {
        s
    }
}

/// `s` without leading and trailing white space.
pub open spec fn trimmed(s: Seq<char>) -> Seq<char> {
    trim_end(trim_start(s))
}

/// The text made of `chars[from..]` without leading and trailing white space.
pub(crate) fn trimmed_text(chars: &Vec<char>, from: usize) -> (text: String)
    requires
        from <= chars.len(),
    ensures
        text@ == trimmed(chars@.skip(from as int)),
{
    let n = chars.len();
    let mut a: usize = from;
    while a < n && is_space_char(chars[a])
        invariant
            from <= a <= n == chars.len(),
            trim_start(chars@.skip(from as int)) == trim_start(chars@.subrange(a as int, n as int)),
        decreases n - a,
    {
        assert(chars@.subrange(a as int, n as int).skip(1) =~= chars@.subrange(a + 1, n as int));
        a = a + 1;
    }
    assert(trim_start(chars@.skip(from as int)) == chars@.subrange(a as int, n as int));
    let mut b: usize = n;
    while b > a && is_space_char(chars[b - 1])
        invariant
            a <= b <= n == chars.len(),
            trim_end(chars@.subrange(a as int, n as int)) == trim_end(
                chars@.subrange(a as int, b as int),
            ),
        decreases b - a,
    {
        assert(chars@.subrange(a as int, b as int).drop_last() =~= chars@.subrange(
            a as int,
            b - 1,
        ));
        b = b - 1;
    }
    text_of_range(chars, a, b)
}

/// Whether `text` is free of the escape character U+001B, which starts a
/// control sequence of the terminal.
pub open spec fn has_no_escape(text: Seq<char>) -> bool {
    forall|i: int| 0 <= i < text.len() ==> text[i] != '\u{1b}'
}

/// `text` as it can be printed: every escape character is replaced by the
/// symbol that stands for it, U+241B; the other characters stay.
pub open spec fn printable(text: Seq<char>) -> Seq<char> {
    Seq::new(
        text.len(),
        |i: int|
            if text[i] == '\u{1b}' {
                '\u{241b}'
            } else {
                text[i]
            },
    )
}

/// What can be printed holds no escape character, and a text without one is
/// printed as it is.
pub proof fn lemma_printable(text: Seq<char>)
    ensures
        has_no_escape(printable(text)),
        has_no_escape(text) ==> printable(text) == text,
{
    if has_no_escape(text) {
        assert(printable(text) =~= text);
    }
}

/// Computes [`printable`].
pub fn printable_text(text: &str) -> (shown: String)
    ensures
        shown@ == printable(text@),
{
    let mut shown = String::new();
    for c in it: text.chars()
        invariant
            it.seq() == text@,
            shown@ == printable(text@.take(it.index() as int)),
    {
        let ghost before = shown@;
        if c == '\u{1b}' {
            shown.push('\u{241b}');
        } else {
            shown.push(c);
        }
        assert(shown@ =~= printable(text@.take(it.index() + 1)));
    }
    assert(text@.take(text@.len() as int) =~= text@);
    shown
}

/// `s` without its commas.
pub open spec fn without_commas(s: Seq<char>) -> Seq<char>
    decreases s.len(),
{
    if s.len() == 0 {
        s
    } else if s.last() == ',' {
        without_commas(s.drop_last())
    } else {
        without_commas(s.drop_last()).push(s.last())
    }
}

/// Removing the commas of a concatenation removes them from each part.
pub proof fn lemma_without_commas_concat(a: Seq<char>, b: Seq<char>)
    ensures
        without_commas(a + b) == without_commas(a) + without_commas(b),
    decreases b.len(),
{
    if b.len() == 0 {
        assert(a + b =~= a);
        assert(without_commas(a) + without_commas(b) =~= without_commas(a));
    } else {
        assert((a + b).drop_last() =~= a + b.drop_last());
        assert((a + b).last() == b.last());
        lemma_without_commas_concat(a, b.drop_last());
        if b.last() == ',' {
        } else {
            assert(without_commas(a + b) =~= without_commas(a) + without_commas(b));
        }
    }
}

/// A text that holds no comma is left as it is.
pub proof fn lemma_without_commas_plain(s: Seq<char>)
    requires
        forall|i: int| 0 <= i < s.len() ==> s[i] != ',',
    ensures
        without_commas(s) == s,
    decreases s.len(),
{
    if s.len() > 0 {
        lemma_without_commas_plain(s.drop_last());
        assert(s.drop_last().push(s.last()) =~= s);
    }
}

/// What is left holds no comma.
pub proof fn lemma_without_commas_has_none(s: Seq<char>)
    ensures
        forall|i: int| 0 <= i < without_commas(s).len() ==> without_commas(s)[i] != ',',
    decreases s.len(),
{
    if s.len() > 0 {
        lemma_without_commas_has_none(s.drop_last());
        let shorter = without_commas(s.drop_last());
        assert forall|i: int| 0 <= i < without_commas(s).len() implies without_commas(s)[i]
            != ',' by {
            if i < shorter.len() {
                assert(shorter[i] != ',');
            }
        }
    }
}

/// `text` with every comma removed.
pub fn strip_commas(text: &str) -> (stripped: String)
    ensures
        stripped@ == without_commas(text@),
{
    let mut stripped = String::new();
    for c in it: text.chars()
        invariant
            it.seq() == text@,
            stripped@ == without_commas(text@.take(it.index() as int)),
    {
        assert(text@.take(it.index() + 1).drop_last() =~= text@.take(it.index() as int));
        if c != ',' {
            stripped.push(c);
        }
    }
    assert(text@.take(text@.len() as int) =~= text@);
    stripped
}

} // verus!
