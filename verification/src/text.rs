//! Character-level string helpers shared by the parsers of this crate:
//! equality, ASCII case folding, substring search, Unicode whitespace
//! trimming and decimal `u32` parsing.

use vstd::prelude::*;

verus! {

/// Unicode `White_Space` property, as `char::is_whitespace` documents it.
pub open spec fn is_white_space(c: char) -> bool {
    let u = c as u32;
    ||| 0x09 <= u <= 0x0D
    ||| u == 0x20
    ||| u == 0x85
    ||| u == 0xA0
    ||| u == 0x1680
    ||| 0x2000 <= u <= 0x200A
    ||| u == 0x2028
    ||| u == 0x2029
    ||| u == 0x202F
    ||| u == 0x205F
    ||| u == 0x3000
}

/// `s` with leading whitespace removed.
pub open spec fn trim_start(s: Seq<char>) -> Seq<char>
    decreases s.len(),
{
    if s.len() > 0 && is_white_space(s[0]) {
        trim_start(s.drop_first())
    } else {
        s
    }
}

/// `s` with trailing whitespace removed.
pub open spec fn trim_end(s: Seq<char>) -> Seq<char>
    decreases s.len(),
{
    if s.len() > 0 && is_white_space(s.last()) {
        trim_end(s.drop_last())
    } else {
        s
    }
}

/// `s` with leading and trailing whitespace removed (`str::trim`).
pub open spec fn trim(s: Seq<char>) -> Seq<char> {
    trim_end(trim_start(s))
}

/// Code point of `c` after ASCII lower-casing (`char::to_ascii_lowercase`).
pub open spec fn folded(c: char) -> u32 {
    let u = c as u32;
    if 0x41 <= u <= 0x5A {
        (u + 0x20) as u32
    } else {
        u
    }
}

/// Code points of `s` after ASCII lower-casing.
pub open spec fn fold_seq(s: Seq<char>) -> Seq<u32> {
    s.map_values(|c: char| folded(c))
}

/// Code points of `s`, unchanged.
pub open spec fn code_seq(s: Seq<char>) -> Seq<u32> {
    s.map_values(|c: char| c as u32)
}

/// `needle` occurs in `hay` starting at position `i`.
pub open spec fn occurs_at(needle: Seq<u32>, hay: Seq<u32>, i: int) -> bool {
    &&& 0 <= i
    &&& i + needle.len() <= hay.len()
    &&& hay.subrange(i, i + needle.len()) == needle
}

/// `needle` occurs somewhere in `hay` (`str::contains`).
pub open spec fn is_substring(needle: Seq<u32>, hay: Seq<u32>) -> bool {
    exists|i: int| occurs_at(needle, hay, i)
}

/// ASCII-case-insensitive equality (`str::eq_ignore_ascii_case`).
pub open spec fn eq_ignore_case(a: Seq<char>, b: Seq<char>) -> bool {
    fold_seq(a) == fold_seq(b)
}

/// Value of a decimal digit character.
pub open spec fn digit_value(c: char) -> int {
    c as u32 - '0' as u32
}

pub open spec fn is_digit(c: char) -> bool {
    '0' <= c <= '9'
}

/// Every character of `s` is a decimal digit.
pub open spec fn all_digits(s: Seq<char>) -> bool {
    forall|i: int| 0 <= i < s.len() ==> is_digit(#[trigger] s[i])
}

/// Decimal value of a digit string (most significant digit first).
pub open spec fn decimal_value(s: Seq<char>) -> int
    decreases s.len(),
{
    if s.len() == 0 {
        0
    } else {
        decimal_value(s.drop_last()) * 10 + digit_value(s.last())
    }
}

/// Outcome of `<u32 as FromStr>::from_str`: an optional leading `+`, then
/// one or more decimal digits whose value fits in a `u32`.
pub open spec fn parse_u32_spec(s: Seq<char>) -> Option<u32> {
    let digits = if s.len() > 0 && s[0] == '+' {
        s.drop_first()
    } else {
        s
    };
    if digits.len() > 0 && all_digits(digits) && decimal_value(digits) <= u32::MAX {
        Some(decimal_value(digits) as u32)
    } else {
        None
    }
}

/// Character-wise equality of two string slices.
pub fn chars_equal(a: &str, b: &str) -> (r: bool)
    ensures
        r == (a@ == b@),
{
    let n = a.unicode_len();
    let m = b.unicode_len();
    if n != m {
        return false;
    }
    let mut i: usize = 0;
    while i < n
        invariant
            n == a@.len(),
            m == b@.len(),
            n == m,
            i <= n,
            forall|k: int| 0 <= k < i ==> a@[k] == b@[k],
        decreases n - i,
    {
        if a.get_char(i) != b.get_char(i) {
            return false;
        }
        i = i + 1;
    }
    assert(a@ =~= b@);
    true
}

/// Lower-cased code point of `c`.
pub fn fold_char(c: char) -> (r: u32)
    ensures
        r == folded(c),
{
    let u = c as u32;
    if 0x41 <= u && u <= 0x5A {
        u + 0x20
    } else {
        u
    }
}

/// ASCII-case-insensitive equality of two string slices.
pub fn eq_ignore_ascii_case(a: &str, b: &str) -> (r: bool)
    ensures
        r == eq_ignore_case(a@, b@),
{
    let n = a.unicode_len();
    let m = b.unicode_len();
    if n != m {
        assert(fold_seq(a@).len() != fold_seq(b@).len());
        return false;
    }
    let mut i: usize = 0;
    while i < n
        invariant
            n == a@.len(),
            m == b@.len(),
            n == m,
            i <= n,
            forall|k: int| 0 <= k < i ==> folded(a@[k]) == folded(b@[k]),
        decreases n - i,
    {
        if fold_char(a.get_char(i)) != fold_char(b.get_char(i)) {
            assert(fold_seq(a@)[i as int] != fold_seq(b@)[i as int]);
            return false;
        }
        i = i + 1;
    }
    assert(fold_seq(a@) =~= fold_seq(b@));
    true
}

/// Key of one character in a search: its code point, lower-cased when
/// `ignore_case` holds.
pub open spec fn key_of(c: char, ignore_case: bool) -> u32 {
    if ignore_case {
        folded(c)
    } else {
        c as u32
    }
}

pub open spec fn key_seq(s: Seq<char>, ignore_case: bool) -> Seq<u32> {
    if ignore_case {
        fold_seq(s)
    } else {
        code_seq(s)
    }
}

fn key_char(c: char, ignore_case: bool) -> (r: u32)
    ensures
        r == key_of(c, ignore_case),
{
    if ignore_case {
        fold_char(c)
    } else {
        c as u32
    }
}

/// Does `needle` match `hay` at position `start`?
fn matches_at(hay: &str, needle: &str, start: usize, ignore_case: bool) -> (r: bool)
    requires
        start + needle@.len() <= hay@.len(),
    ensures
        r == occurs_at(key_seq(needle@, ignore_case), key_seq(hay@, ignore_case), start as int),
{
    let n = needle.unicode_len();
    let h = hay.unicode_len();
    let ghost ks = key_seq(needle@, ignore_case);
    let ghost kh = key_seq(hay@, ignore_case);
    let mut k: usize = 0;
    while k < n
        invariant
            n == needle@.len(),
            h == hay@.len(),
            start + n <= hay@.len(),
            k <= n,
            ks == key_seq(needle@, ignore_case),
            kh == key_seq(hay@, ignore_case),
            forall|j: int| 0 <= j < k ==> kh[start + j] == ks[j],
        decreases n - k,
    {
        let a = key_char(hay.get_char(start + k), ignore_case);
        let b = key_char(needle.get_char(k), ignore_case);
        if a != b {
            assert(kh.subrange(start as int, start + ks.len())[k as int] != ks[k as int]);
            return false;
        }
        k = k + 1;
    }
    assert(kh.subrange(start as int, start + ks.len()) =~= ks);
    true
}

/// Does `needle` occur in `hay`?  Keys are compared case-insensitively
/// (ASCII) when `ignore_case` holds.
pub fn contains_keyed(hay: &str, needle: &str, ignore_case: bool) -> (r: bool)
    ensures
        r == is_substring(key_seq(needle@, ignore_case), key_seq(hay@, ignore_case)),
{
    let h = hay.unicode_len();
    let n = needle.unicode_len();
    let ghost ks = key_seq(needle@, ignore_case);
    let ghost kh = key_seq(hay@, ignore_case);
    if n > h {
        assert forall|i: int| !occurs_at(ks, kh, i) by {}
        return false;
    }
    if n == 0 {
        assert(kh.subrange(0, 0) =~= ks);
        assert(occurs_at(ks, kh, 0));
        return true;
    }
    let mut i: usize = 0;
    while i <= h - n
        invariant
            h == hay@.len(),
            n == needle@.len(),
            0 < n <= h,
            i <= h - n + 1,
            ks == key_seq(needle@, ignore_case),
            kh == key_seq(hay@, ignore_case),
            forall|j: int| 0 <= j < i ==> !occurs_at(ks, kh, j),
        decreases h - n + 1 - i,
    {
        if matches_at(hay, needle, i, ignore_case) {
            return true;
        }
        i = i + 1;
    }
    assert forall|j: int| !occurs_at(ks, kh, j) by {}
    false
}

/// Leading-whitespace count of `s`, with the trimmed remainder.
fn start_of_content(s: &str) -> (r: usize)
    ensures
        r <= s@.len(),
        trim_start(s@) == s@.subrange(r as int, s@.len() as int),
{
    let n = s.unicode_len();
    let mut i: usize = 0;
    assert(s@.subrange(0, n as int) =~= s@);
    while i < n && is_white_space_char(s.get_char(i))
        invariant
            n == s@.len(),
            i <= n,
            trim_start(s@) == trim_start(s@.subrange(i as int, n as int)),
        decreases n - i,
    {
        assert(s@.subrange(i as int, n as int).drop_first() =~= s@.subrange(i + 1, n as int));
        i = i + 1;
    }
    i
}

/// Position one past the last non-whitespace character of `s[from..]`.
fn end_of_content(s: &str, from: usize) -> (r: usize)
    requires
        from <= s@.len(),
    ensures
        from <= r <= s@.len(),
        trim_end(s@.subrange(from as int, s@.len() as int)) == s@.subrange(from as int, r as int),
{
    let n = s.unicode_len();
    let mut j: usize = n;
    while j > from && is_white_space_char(s.get_char(j - 1))
        invariant
            n == s@.len(),
            from <= j <= n,
            trim_end(s@.subrange(from as int, n as int)) == trim_end(
                s@.subrange(from as int, j as int),
            ),
        decreases j - from,
    {
        assert(s@.subrange(from as int, j as int).drop_last() =~= s@.subrange(
            from as int,
            j - 1,
        ));
        j = j - 1;
    }
    j
}

/// Executable test for the Unicode `White_Space` property.
pub fn is_white_space_char(c: char) -> (r: bool)
    ensures
        r == is_white_space(c),
{
    let u = c as u32;
    (0x09 <= u && u <= 0x0D) || u == 0x20 || u == 0x85 || u == 0xA0 || u == 0x1680 || (0x2000
        <= u && u <= 0x200A) || u == 0x2028 || u == 0x2029 || u == 0x202F || u == 0x205F || u
        == 0x3000
}

/// `s` without leading and trailing whitespace (`str::trim`).
pub fn trim_str(s: &str) -> (r: &str)
    ensures
        r@ == trim(s@),
{
    let a = start_of_content(s);
    let b = end_of_content(s, a);
    s.substring_char(a, b)
}

proof fn lemma_decimal_value_nonneg(s: Seq<char>)
    requires
        all_digits(s),
    ensures
        decimal_value(s) >= 0,
    decreases s.len(),
{
    if s.len() > 0 {
        lemma_decimal_value_nonneg(s.drop_last());
    }
}

/// Parses `s` as `u32` the way `<u32 as FromStr>::from_str` does.
pub fn parse_u32(s: &str) -> (r: Option<u32>)
    ensures
        r == parse_u32_spec(s@),
{
    let n = s.unicode_len();
    let mut i: usize = 0;
    if n > 0 && s.get_char(0) == '+' {
        i = 1;
    }
    let ghost digits = s@.subrange(i as int, n as int);
    assert(digits =~= (if s@.len() > 0 && s@[0] == '+' {
        s@.drop_first()
    } else {
        s@
    }));
    if i == n {
        assert(digits.len() == 0);
        return None;
    }
    // `acc` holds the value of the digits read so far, capped at 2^32.
    let cap: u64 = 0x1_0000_0000;
    let mut acc: u64 = 0;
    let start = i;
    while i < n
        invariant
            n == s@.len(),
            start <= i <= n,
            digits == s@.subrange(start as int, n as int),
            digits == (if s@.len() > 0 && s@[0] == '+' {
                s@.drop_first()
            } else {
                s@
            }),
            all_digits(s@.subrange(start as int, i as int)),
            acc as int == if decimal_value(s@.subrange(start as int, i as int)) < cap {
                decimal_value(s@.subrange(start as int, i as int))
            } else {
                cap as int
            },
            cap == 0x1_0000_0000,
        decreases n - i,
    {
        let c = s.get_char(i);
        if !('0' <= c && c <= '9') {
            assert(digits[(i - start) as int] == c);
            assert(!is_digit(digits[(i - start) as int]));
            assert(!all_digits(digits));
            return None;
        }
        let ghost prev = s@.subrange(start as int, i as int);
        let ghost next = s@.subrange(start as int, i + 1);
        assert(next.drop_last() =~= prev);
        assert(next.last() == c);
        proof {
            lemma_decimal_value_nonneg(prev);
        }
        let d = (c as u32 - '0' as u32) as u64;
        let t = acc * 10 + d;
        acc = if t < cap {
            t
        } else {
            cap
        };
        i = i + 1;
    }
    assert(s@.subrange(start as int, n as int) =~= digits);
    if acc < cap {
        Some(acc as u32)
    } else {
        None
    }
}

} // verus!
