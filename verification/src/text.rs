//! Character-level helpers over `str` and `String`, stated over their
//! character sequences.

use vstd::prelude::*;

verus! {

/// Appends one character (std `String::push`).
#[verifier::external_body]
pub(crate) fn push_char(s: &mut String, c: char)
    ensures
        final(s)@ == old(s)@.push(c),
{
    s.push(c);
}

/// The characters of a text, in order.
pub fn chars_of(s: &str) -> (v: Vec<char>)
    ensures
        v@ == s@,
{
    let n = s.unicode_len();
    let mut v: Vec<char> = Vec::new();
    let mut i: usize = 0;
    while i < n
        invariant
            n == s@.len(),
            i <= n,
            v@ == s@.take(i as int),
        decreases n - i,
    {
        v.push(s.get_char(i));
        i = i + 1;
        assert(v@ =~= s@.take(i as int));
    }
    assert(s@.take(n as int) =~= s@);
    v
}

/// A text made of the characters `chars[from..to]`.
pub fn string_from_range(chars: &Vec<char>, from: usize, to: usize) -> (s: String)
    requires
        from <= to <= chars@.len(),
    ensures
        s@ == chars@.subrange(from as int, to as int),
{
    let mut s = String::new();
    let mut i: usize = from;
    while i < to
        invariant
            from <= i <= to,
            to <= chars@.len(),
            s@ == chars@.subrange(from as int, i as int),
        decreases to - i,
    {
        push_char(&mut s, chars[i]);
        i = i + 1;
        assert(s@ =~= chars@.subrange(from as int, i as int));
    }
    s
}

/// Whether two texts hold the same characters.
pub fn str_eq(a: &str, b: &str) -> (eq: bool)
    ensures
        eq == (a@ == b@),
{
    let n = a.unicode_len();
    if n != b.unicode_len() {
        return false;
    }
    let mut i: usize = 0;
    while i < n
        invariant
            n == a@.len(),
            n == b@.len(),
            i <= n,
            forall|k: int| 0 <= k < i ==> a@[k] == b@[k],
        decreases n - i,
    {
        if a.get_char(i) != b.get_char(i) {
            return false;
        }
        i = i + 1;
    }
    assert(a@ =~= b@);
    true
}

/// Unicode `White_Space`, the set that `char::is_whitespace` and `str::trim` use.
pub open spec fn spec_is_whitespace(c: char) -> bool {
    ||| ('\u{9}' <= c <= '\u{d}')
    ||| c == ' '
    ||| c == '\u{85}'
    ||| c == '\u{a0}'
    ||| c == '\u{1680}'
    ||| ('\u{2000}' <= c <= '\u{200a}')
    ||| c == '\u{2028}'
    ||| c == '\u{2029}'
    ||| c == '\u{202f}'
    ||| c == '\u{205f}'
    ||| c == '\u{3000}'
}

pub fn is_whitespace(c: char) -> (ws: bool)
    ensures
        ws == spec_is_whitespace(c),
{
    ('\u{9}' <= c && c <= '\u{d}') || c == ' ' || c == '\u{85}' || c == '\u{a0}' || c == '\u{1680}'
        || ('\u{2000}' <= c && c <= '\u{200a}') || c == '\u{2028}' || c == '\u{2029}'
        || c == '\u{202f}' || c == '\u{205f}' || c == '\u{3000}'
}

/// Unicode general category `Cc`, the set that `char::is_control` uses.
pub open spec fn spec_is_control(c: char) -> bool {
    c <= '\u{1f}' || ('\u{7f}' <= c <= '\u{9f}')
}

pub fn is_control(c: char) -> (ctl: bool)
    ensures
        ctl == spec_is_control(c),
{
    c <= '\u{1f}' || ('\u{7f}' <= c && c <= '\u{9f}')
}

/// Index of the first non-whitespace character of `s[from..to]`, or `to`.
pub open spec fn spec_trim_start(s: Seq<char>, from: int, to: int) -> int
    decreases to - from,
{
    if from >= to {
        to
    } else if spec_is_whitespace(s[from]) {
        spec_trim_start(s, from + 1, to)
    } else {
        from
    }
}

/// One past the last non-whitespace character of `s[from..to]`, or `from`.
pub open spec fn spec_trim_end(s: Seq<char>, from: int, to: int) -> int
    decreases to - from,
{
    if from >= to {
        from
    } else if spec_is_whitespace(s[to - 1]) {
        spec_trim_end(s, from, to - 1)
    } else {
        to
    }
}

/// The bounds of `s[from..to]` with leading and trailing whitespace removed.
pub open spec fn spec_trim_bounds(s: Seq<char>, from: int, to: int) -> (int, int) {
    let start = spec_trim_start(s, from, to);
    (start, spec_trim_end(s, start, to))
}

/// `str::trim` on a character sequence.
pub open spec fn spec_trim(s: Seq<char>) -> Seq<char> {
    let (a, b) = spec_trim_bounds(s, 0, s.len() as int);
    s.subrange(a, b)
}

/// Trimming from the start stays inside the range.
pub(crate) proof fn lemma_trim_start_bounds(s: Seq<char>, from: int, to: int)
    requires
        0 <= from <= to <= s.len(),
    ensures
        from <= spec_trim_start(s, from, to) <= to,
    decreases to - from,
{
    if from < to && spec_is_whitespace(s[from]) {
        lemma_trim_start_bounds(s, from + 1, to);
    }
}

/// Trimming from the end stays inside the range.
pub(crate) proof fn lemma_trim_end_bounds(s: Seq<char>, from: int, to: int)
    requires
        0 <= from <= to <= s.len(),
    ensures
        from <= spec_trim_end(s, from, to) <= to,
    decreases to - from,
{
    if from < to && spec_is_whitespace(s[to - 1]) {
        lemma_trim_end_bounds(s, from, to - 1);
    }
}

/// The trimmed bounds of `chars[from..to]`.
pub fn trim_bounds(chars: &Vec<char>, from: usize, to: usize) -> (bounds: (usize, usize))
    requires
        from <= to <= chars@.len(),
    ensures
        (bounds.0 as int, bounds.1 as int) == spec_trim_bounds(chars@, from as int, to as int),
        from <= bounds.0 <= bounds.1 <= to,
{
    let mut a: usize = from;
    while a < to && is_whitespace(chars[a])
        invariant
            from <= a <= to,
            to <= chars@.len(),
            spec_trim_start(chars@, a as int, to as int) == spec_trim_start(chars@, from as int, to as int),
        decreases to - a,
    {
        a = a + 1;
    }
    let mut b: usize = to;
    while b > a && is_whitespace(chars[b - 1])
        invariant
            a <= b <= to,
            to <= chars@.len(),
            spec_trim_end(chars@, a as int, b as int) == spec_trim_end(chars@, a as int, to as int),
        decreases b - a,
    {
        b = b - 1;
    }
    (a, b)
}

} // verus!
