//! Parsing of the Pixiv session cookie an administrator pastes: either the
//! bare `PHPSESSID` value or a whole `Cookie` header.

use vstd::prelude::*;
use crate::text::{chars_of, is_whitespace, push_char, spec_is_whitespace, spec_trim_bounds, spec_trim_end, spec_trim_start, trim_bounds, lemma_trim_end_bounds, lemma_trim_start_bounds};

verus! {

/// The first position in `[from, to)` holding `c`, or `to`.
pub open spec fn spec_find(s: Seq<char>, from: int, to: int, c: char) -> int
    decreases to - from,
{
    if from >= to {
        to
    } else if s[from] == c {
        from
    } else {
        spec_find(s, from + 1, to, c)
    }
}

/// The search for `c` stops inside the range, on `c` if it stops early.
pub proof fn lemma_find_bounds(s: Seq<char>, from: int, to: int, c: char)
    requires
        from <= to,
    ensures
        from <= spec_find(s, from, to, c) <= to,
        spec_find(s, from, to, c) < to ==> s[spec_find(s, from, to, c)] == c,
        forall|k: int| from <= k < spec_find(s, from, to, c) ==> s[k] != c,
    decreases to - from,
{
    if from < to && s[from] != c {
        lemma_find_bounds(s, from + 1, to, c);
    }
}

fn find_char(s: &Vec<char>, from: usize, to: usize, c: char) -> (pos: usize)
    requires
        from <= to <= s@.len(),
    ensures
        pos == spec_find(s@, from as int, to as int, c),
        from <= pos <= to,
{
    let mut i = from;
    while i < to && s[i] != c
        invariant
            from <= i <= to,
            to <= s@.len(),
            spec_find(s@, i as int, to as int, c) == spec_find(s@, from as int, to as int, c),
        decreases to - i,
    {
        i = i + 1;
    }
    i
}

/// The bounds of the trimmed value of the first `PHPSESSID` entry among the
/// `;`-separated parts of `s[from..to]`, if there is one.
pub open spec fn spec_session_value_in(s: Seq<char>, from: int, to: int) -> Option<(int, int)>
    decreases to - from,
{
    if from > to {
        None
    } else {
        let semi = spec_find(s, from, to, ';');
        let (pa, pb) = spec_trim_bounds(s, from, semi);
        let eq = spec_find(s, pa, pb, '=');
        let (na, nb) = spec_trim_bounds(s, pa, eq);
        let found = eq < pb && s.subrange(na, nb) == "PHPSESSID"@;
        if found {
            Some(spec_trim_bounds(s, eq + 1, pb))
        } else if semi < to {
            proof {
                lemma_find_bounds(s, from, to, ';');
            }
            spec_session_value_in(s, semi + 1, to)
        } else {
            None
        }
    }
}

/// The decimal value of a run of ASCII digits.
pub open spec fn spec_decimal(digits: Seq<char>) -> int
    decreases digits.len(),
{
    if digits.len() == 0 {
        0
    } else {
        spec_decimal(digits.drop_last()) * 10 + (digits.last() as int - '0' as int)
    }
}

pub open spec fn spec_is_ascii_digit(c: char) -> bool {
    '0' <= c <= '9'
}

/// Printable ASCII other than space (`u8::is_ascii_graphic`).
pub open spec fn spec_is_ascii_graphic(c: char) -> bool {
    '!' <= c <= '~'
}

/// The session value is well formed: `<user id>_<session>`, both parts
/// non-empty, the user id made of digits, and the whole value printable
/// ASCII without `;`.
pub open spec fn spec_value_well_formed(s: Seq<char>, va: int, vb: int, us: int) -> bool {
    &&& us < vb
    &&& va < us
    &&& us + 1 < vb
    &&& forall|i: int| va <= i < us ==> spec_is_ascii_digit(#[trigger] s[i])
    &&& forall|i: int| va <= i < vb ==> spec_is_ascii_graphic(#[trigger] s[i]) && s[i] != ';'
}

/// The bounds of the session value inside `input`: the whole trimmed input,
/// or, for a cookie header (it contains `=`), the `PHPSESSID` entry's value.
pub open spec fn spec_session_value_bounds(input: Seq<char>) -> Option<(int, int)> {
    let (a, b) = spec_trim_bounds(input, 0, input.len() as int);
    if a == b {
        None
    } else if spec_find(input, a, b, '=') < b {
        spec_session_value_in(input, a, b)
    } else {
        Some((a, b))
    }
}

/// The Pixiv user id and the normalized `PHPSESSID=<value>` cookie that a
/// pasted cookie denotes, or `None` when it is rejected.
pub open spec fn spec_normalize_cookie(input: Seq<char>) -> Option<(i64, Seq<char>)> {
    match spec_session_value_bounds(input) {
        None => None,
        Some((va, vb)) => {
            let us = spec_find(input, va, vb, '_');
            let n = spec_decimal(input.subrange(va, us));
            if spec_value_well_formed(input, va, vb, us) && 0 < n <= i64::MAX {
                Some((n as i64, "PHPSESSID="@ + input.subrange(va, vb)))
            } else {
                None
            }
        },
    }
}

proof fn lemma_decimal_step(digits: Seq<char>, k: int)
    requires
        0 <= k < digits.len(),
        forall|i: int| 0 <= i < digits.len() ==> spec_is_ascii_digit(#[trigger] digits[i]),
    ensures
        spec_decimal(digits.take(k + 1)) == spec_decimal(digits.take(k)) * 10 + (digits[k] as int - '0' as int),
        spec_decimal(digits.take(k + 1)) >= spec_decimal(digits.take(k)),
{
    assert(digits.take(k + 1).drop_last() =~= digits.take(k));
    lemma_decimal_nonneg(digits.take(k));
}

proof fn lemma_decimal_nonneg(digits: Seq<char>)
    requires
        forall|i: int| 0 <= i < digits.len() ==> spec_is_ascii_digit(#[trigger] digits[i]),
    ensures
        spec_decimal(digits) >= 0,
    decreases digits.len(),
{
    if digits.len() > 0 {
        assert(spec_is_ascii_digit(digits[digits.len() - 1]));
        lemma_decimal_nonneg(digits.drop_last());
    }
}

proof fn lemma_decimal_prefix_monotone(digits: Seq<char>, k: int, m: int)
    requires
        0 <= k <= m <= digits.len(),
        forall|i: int| 0 <= i < digits.len() ==> spec_is_ascii_digit(#[trigger] digits[i]),
    ensures
        spec_decimal(digits.take(k)) <= spec_decimal(digits.take(m)),
    decreases m - k,
{
    if k < m {
        lemma_decimal_prefix_monotone(digits, k, m - 1);
        lemma_decimal_step(digits, m - 1);
    }
}

/// The decimal value of `s[from..to]`, or `None` when it exceeds `i64::MAX`.
fn parse_decimal(s: &Vec<char>, from: usize, to: usize) -> (n: Option<i64>)
    requires
        from <= to <= s@.len(),
        forall|i: int| from <= i < to ==> spec_is_ascii_digit(#[trigger] s@[i]),
    ensures
        match n {
            Some(v) => v == spec_decimal(s@.subrange(from as int, to as int)),
            None => spec_decimal(s@.subrange(from as int, to as int)) > i64::MAX,
        },
{
    let ghost digits = s@.subrange(from as int, to as int);
    assert forall|i: int| 0 <= i < digits.len() implies spec_is_ascii_digit(#[trigger] digits[i]) by {
        assert(digits[i] == s@[from + i]);
    }
    let mut value: i64 = 0;
    let mut i: usize = from;
    while i < to
        invariant
            from <= i <= to,
            to <= s@.len(),
            digits == s@.subrange(from as int, to as int),
            forall|k: int| 0 <= k < digits.len() ==> spec_is_ascii_digit(#[trigger] digits[k]),
            value == spec_decimal(digits.take(i - from)),
            0 <= value,
        decreases to - i,
    {
        let c = s[i];
        assert(c == digits[i - from]);
        proof {
            lemma_decimal_step(digits, i - from);
        }
        let d = (c as u32 - '0' as u32) as i64;
        assert(d == c as int - '0' as int);
        let next = value.checked_mul(10);
        let next = match next {
            Some(v) => v.checked_add(d),
            None => None,
        };
        match next {
            Some(v) => {
                value = v;
            },
            None => {
                proof {
                    lemma_decimal_prefix_monotone(digits, i - from + 1, digits.len() as int);
                    assert(digits.take(digits.len() as int) =~= digits);
                }
                return None;
            },
        }
        i = i + 1;
    }
    assert(digits.take(to - from) =~= digits);
    Some(value)
}

/// Finds the `PHPSESSID` entry among the `;`-separated parts of `s[from..to]`.
fn session_value_in(s: &Vec<char>, from: usize, to: usize) -> (bounds: Option<(usize, usize)>)
    requires
        from <= to <= s@.len(),
    ensures
        match bounds {
            Some((a, b)) => spec_session_value_in(s@, from as int, to as int) == Some((a as int, b as int)) && a <= b <= to,
            None => spec_session_value_in(s@, from as int, to as int) is None,
        },
{
    let name: Vec<char> = chars_of("PHPSESSID");
    let mut pos = from;
    loop
        invariant
            from <= pos <= to,
            to <= s@.len(),
            name@ == "PHPSESSID"@,
            spec_session_value_in(s@, pos as int, to as int) == spec_session_value_in(s@, from as int, to as int),
        decreases to - pos,
    {
        let semi = find_char(s, pos, to, ';');
        let (pa, pb) = trim_bounds(s, pos, semi);
        let eq = find_char(s, pa, pb, '=');
        let (na, nb) = trim_bounds(s, pa, eq);
        if eq < pb && range_equals(s, na, nb, &name) {
            let bounds = trim_bounds(s, eq + 1, pb);
            return Some(bounds);
        }
        if semi < to {
            pos = semi + 1;
        } else {
            return None;
        }
    }
}

/// Whether `s[from..to]` holds exactly the characters of `word`.
fn range_equals(s: &Vec<char>, from: usize, to: usize, word: &Vec<char>) -> (eq: bool)
    requires
        from <= to <= s@.len(),
    ensures
        eq == (s@.subrange(from as int, to as int) == word@),
{
    if to - from != word.len() {
        assert(s@.subrange(from as int, to as int).len() != word@.len());
        return false;
    }
    let mut i: usize = 0;
    while i < word.len()
        invariant
            to - from == word@.len(),
            from <= to <= s@.len(),
            i <= word@.len(),
            forall|k: int| 0 <= k < i ==> s@[from + k] == word@[k],
        decreases word.len() - i,
    {
        if s[from + i] != word[i] {
            assert(s@.subrange(from as int, to as int)[i as int] != word@[i as int]);
            return false;
        }
        i = i + 1;
    }
    assert(s@.subrange(from as int, to as int) =~= word@);
    true
}

/// Why a pasted cookie was not accepted.
#[derive(Clone, Copy, Debug, PartialEq, Eq, Structural)]
pub enum CookieInputError {
    InvalidInput,
}

/// The search stops at the first `c`.
proof fn lemma_find_first(s: Seq<char>, from: int, to: int, c: char, k: int)
    requires
        from <= k < to,
        s[k] == c,
        forall|j: int| from <= j < k ==> s[j] != c,
    ensures
        spec_find(s, from, to, c) == k,
    decreases k - from,
{
    if from < k {
        lemma_find_first(s, from + 1, to, c, k);
    }
}

/// Without a `c` the search runs to the end.
proof fn lemma_find_absent(s: Seq<char>, from: int, to: int, c: char)
    requires
        from <= to,
        forall|j: int| from <= j < to ==> s[j] != c,
    ensures
        spec_find(s, from, to, c) == to,
    decreases to - from,
{
    if from < to {
        lemma_find_absent(s, from + 1, to, c);
    }
}

/// The session value found among the parts of `s[from..to]` lies inside it.
proof fn lemma_session_value_in_bounds(s: Seq<char>, from: int, to: int)
    requires
        0 <= from,
        to <= s.len(),
    ensures
        spec_session_value_in(s, from, to) matches Some((a, b)) ==> from <= a <= b <= to,
    decreases to - from,
{
    if from <= to {
        let semi = spec_find(s, from, to, ';');
        lemma_find_bounds(s, from, to, ';');
        lemma_trim_start_bounds(s, from, semi);
        let pa = spec_trim_start(s, from, semi);
        lemma_trim_end_bounds(s, pa, semi);
        let pb = spec_trim_end(s, pa, semi);
        let eq = spec_find(s, pa, pb, '=');
        lemma_find_bounds(s, pa, pb, '=');
        if eq < pb {
            lemma_trim_start_bounds(s, eq + 1, pb);
            lemma_trim_end_bounds(s, spec_trim_start(s, eq + 1, pb), pb);
        }
        if semi < to {
            lemma_session_value_in_bounds(s, semi + 1, to);
        }
    }
}

/// The bounds of a pasted cookie's session value lie inside it.
proof fn lemma_session_value_bounds(input: Seq<char>)
    ensures
        spec_session_value_bounds(input) matches Some((a, b)) ==> 0 <= a <= b <= input.len(),
{
    let len = input.len() as int;
    lemma_trim_start_bounds(input, 0, len);
    let a = spec_trim_start(input, 0, len);
    lemma_trim_end_bounds(input, a, len);
    let b = spec_trim_end(input, a, len);
    lemma_session_value_in_bounds(input, a, b);
}

/// Normalizing is idempotent: a cookie that was accepted normalizes to
/// `PHPSESSID=<value>` with a positive user id, and that normalized cookie,
/// pasted again, is accepted with the same user id and left as it is.
pub proof fn lemma_normalize_cookie_idempotent(input: Seq<char>)
    requires
        spec_normalize_cookie(input) is Some,
    ensures
        ({
            let (id, cookie) = spec_normalize_cookie(input)->0;
            &&& id > 0
            &&& spec_normalize_cookie(cookie) == Some((id, cookie))
        }),
{
    reveal_strlit("PHPSESSID=");
    reveal_strlit("PHPSESSID");
    lemma_session_value_bounds(input);
    let (va, vb) = spec_session_value_bounds(input)->0;
    let us = spec_find(input, va, vb, '_');
    lemma_find_bounds(input, va, vb, '_');
    assert(spec_value_well_formed(input, va, vb, us));
    let v = input.subrange(va, vb);
    let pre = "PHPSESSID="@;
    let c = pre + v;
    let len = c.len() as int;
    assert(len == 10 + vb - va);
    assert forall|k: int| 10 <= k < len implies #[trigger] c[k] == input[va + k - 10] by {
        assert(c[k] == v[k - 10]);
    }
    assert(spec_is_ascii_graphic(input[vb - 1]));
    assert(c[len - 1] == input[vb - 1]);
    assert(spec_is_ascii_digit(input[va]));
    assert(c[10] == input[va]);
    // The whole cookie is its own trimmed text, and it holds `=` at 9.
    assert(spec_trim_start(c, 0, len) == 0);
    assert(spec_trim_end(c, 0, len) == len);
    assert forall|j: int| 0 <= j < 9 implies c[j] != '=' by {}
    lemma_find_first(c, 0, len, '=', 9);
    // No `;` anywhere: the first part is the whole cookie.
    assert forall|j: int| 0 <= j < len implies c[j] != ';' by {
        if j >= 10 {
            assert(c[j] == input[va + j - 10]);
        }
    }
    lemma_find_absent(c, 0, len, ';');
    assert(spec_trim_start(c, 0, 9) == 0);
    assert(spec_trim_end(c, 0, 9) == 9);
    assert(c.subrange(0, 9) =~= "PHPSESSID"@);
    assert(spec_trim_start(c, 10, len) == 10);
    assert(spec_trim_end(c, 10, len) == len);
    assert(spec_session_value_in(c, 0, len) == Some((10int, len)));
    assert(spec_session_value_bounds(c) == Some((10int, len)));
    // The first `_` of the value sits at the same place.
    let us2 = 10 + us - va;
    assert forall|j: int| 10 <= j < us2 implies c[j] != '_' by {
        assert(c[j] == input[va + j - 10]);
    }
    assert(c[us2] == input[us]);
    lemma_find_first(c, 10, len, '_', us2);
    assert(c.subrange(10, us2) =~= input.subrange(va, us));
    assert(c.subrange(10, len) =~= v);
    assert forall|i: int| 10 <= i < us2 implies spec_is_ascii_digit(#[trigger] c[i]) by {
        assert(c[i] == input[va + i - 10]);
    }
    assert forall|i: int| 10 <= i < len implies spec_is_ascii_graphic(#[trigger] c[i]) && c[i] != ';' by {
        assert(c[i] == input[va + i - 10]);
    }
    assert(spec_value_well_formed(c, 10, len, us2));
}


/// Accepts either a bare `PHPSESSID` value (`<user id>_<session>`) or a
/// cookie header containing `PHPSESSID=<value>`, and returns the Pixiv user
/// id with the normalized cookie `PHPSESSID=<value>`.
#[verifier::loop_isolation(false)]
pub fn normalize_cookie(input: &str) -> (res: Result<(i64, String), CookieInputError>)
    ensures
        match spec_normalize_cookie(input@) {
            Some((id, cookie)) => res matches Ok((rid, rcookie)) && rid == id && rcookie@ == cookie,
            None => res == Err::<(i64, String), CookieInputError>(CookieInputError::InvalidInput),
        },
{
    let s = chars_of(input);
    let (a, b) = trim_bounds(&s, 0, s.len());
    if a == b {
        return Err(CookieInputError::InvalidInput);
    }
    let (va, vb) = if find_char(&s, a, b, '=') < b {
        match session_value_in(&s, a, b) {
            Some(bounds) => bounds,
            None => {
                return Err(CookieInputError::InvalidInput);
            },
        }
    } else {
        (a, b)
    };
    assert(spec_session_value_bounds(input@) == Some((va as int, vb as int)));
    proof {
        lemma_trim_start_bounds(s@, 0, s@.len() as int);
    }
    let us = find_char(&s, va, vb, '_');
    if us == vb || us == va || us + 1 == vb {
        return Err(CookieInputError::InvalidInput);
    }
    let mut i = va;
    while i < us
        invariant
            va <= i <= us,
            us < vb <= s@.len(),
            forall|k: int| va <= k < i ==> spec_is_ascii_digit(#[trigger] s@[k]),
        decreases us - i,
    {
        if !('0' <= s[i] && s[i] <= '9') {
            return Err(CookieInputError::InvalidInput);
        }
        i = i + 1;
    }
    let mut j = va;
    while j < vb
        invariant
            va <= j <= vb,
            vb <= s@.len(),
            forall|k: int| va <= k < j ==> spec_is_ascii_graphic(#[trigger] s@[k]) && s@[k] != ';',
        decreases vb - j,
    {
        if !('!' <= s[j] && s[j] <= '~' && s[j] != ';') {
            return Err(CookieInputError::InvalidInput);
        }
        j = j + 1;
    }
    let user_id = match parse_decimal(&s, va, us) {
        Some(n) => n,
        None => {
            return Err(CookieInputError::InvalidInput);
        },
    };
    if user_id <= 0 {
        return Err(CookieInputError::InvalidInput);
    }
    let mut cookie = String::from_str("PHPSESSID=");
    let mut k = va;
    while k < vb
        invariant
            va <= k <= vb,
            vb <= s@.len(),
            cookie@ == "PHPSESSID="@ + s@.subrange(va as int, k as int),
        decreases vb - k,
    {
        push_char(&mut cookie, s[k]);
        k = k + 1;
        assert(cookie@ =~= "PHPSESSID="@ + s@.subrange(va as int, k as int));
    }
    Ok((user_id, cookie))
}

} // verus!
