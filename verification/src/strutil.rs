//! Character and substring helpers used by the inference rules.
//!
//! URLs and file names are scanned character by character; the rules below
//! are all case-insensitive, so lower-casing of ASCII letters is modelled
//! here once and shared.

use vstd::prelude::*;

verus! {

/// ASCII lower-casing of one character; every other character is unchanged.
pub open spec fn spec_lower_char(c: char) -> char {
    if 65 <= c as u32 && c as u32 <= 90 {
        ((c as u32) + 32) as char
    } else {
        c
    }
}

/// Character-wise ASCII lower-casing of a sequence.
pub open spec fn lower(s: Seq<char>) -> Seq<char> {
    Seq::new(s.len(), |i: int| spec_lower_char(s[i]))
}

/// `p` occurs in `s` starting at position `i`.
pub open spec fn matches_at(s: Seq<char>, p: Seq<char>, i: int) -> bool {
    0 <= i && i + p.len() <= s.len() && s.subrange(i, i + p.len()) == p
}

/// `p` occurs somewhere in `s`.
pub open spec fn contains_sub(s: Seq<char>, p: Seq<char>) -> bool {
    exists|i: int| matches_at(s, p, i)
}

/// `s` ends with `p`.
pub open spec fn ends_with(s: Seq<char>, p: Seq<char>) -> bool {
    p.len() <= s.len() && s.subrange(s.len() - p.len(), s.len() as int) == p
}

#[verifier::when_used_as_spec(spec_lower_char)]
pub fn lower_char(c: char) -> (r: char)
    ensures
        r == spec_lower_char(c),
{
    match c {
        'A' => 'a',
        'B' => 'b',
        'C' => 'c',
        'D' => 'd',
        'E' => 'e',
        'F' => 'f',
        'G' => 'g',
        'H' => 'h',
        'I' => 'i',
        'J' => 'j',
        'K' => 'k',
        'L' => 'l',
        'M' => 'm',
        'N' => 'n',
        'O' => 'o',
        'P' => 'p',
        'Q' => 'q',
        'R' => 'r',
        'S' => 's',
        'T' => 't',
        'U' => 'u',
        'V' => 'v',
        'W' => 'w',
        'X' => 'x',
        'Y' => 'y',
        'Z' => 'z',
        _ => c,
    }
}

/// Case-insensitive test that `p` occurs in `s`; `p` is expected already
/// lower-cased by the caller.
pub fn contains_ci(s: &str, p: &str) -> (r: bool)
    ensures
        r == contains_sub(lower(s@), p@),
{
    let n = s.unicode_len();
    let m = p.unicode_len();
    if m > n {
        assert(forall|i: int| !matches_at(lower(s@), p@, i));
        return false;
    }
    if m == 0 {
        assert(lower(s@).subrange(0, 0) =~= p@);
        assert(matches_at(lower(s@), p@, 0));
        return true;
    }
    let mut i: usize = 0;
    while i <= n - m
        invariant
            0 < m <= n,
            n == s@.len(),
            m == p@.len(),
            i <= n - m + 1,
            forall|k: int| 0 <= k < i ==> !matches_at(lower(s@), p@, k),
        decreases n - m - i + 1,
    {
        let mut j: usize = 0;
        let mut hit = true;
        while j < m
            invariant
                m <= n,
                n == s@.len(),
                m == p@.len(),
                i + m <= n,
                j <= m,
                hit ==> forall|l: int| 0 <= l < j ==> lower(s@)[i + l] == p@[l],
                !hit ==> !matches_at(lower(s@), p@, i as int),
            decreases m - j,
        {
            if lower_char(s.get_char(i + j)) != p.get_char(j) {
                proof {
                    if matches_at(lower(s@), p@, i as int) {
                        assert(lower(s@).subrange(i as int, i + p@.len())[j as int] == lower(
                            s@,
                        )[i + j]);
                    }
                }
                hit = false;
                j = m;
            } else {
                j = j + 1;
            }
        }
        if hit {
            assert(lower(s@).subrange(i as int, i + p@.len()) =~= p@);
            assert(matches_at(lower(s@), p@, i as int));
            return true;
        }
        i = i + 1;
    }
    assert(forall|k: int| matches_at(lower(s@), p@, k) ==> 0 <= k < i);
    false
}

/// Case-insensitive test that `s` ends with `p`; `p` is expected already
/// lower-cased by the caller.
pub fn ends_with_ci(s: &str, p: &str) -> (r: bool)
    ensures
        r == ends_with(lower(s@), p@),
{
    let n = s.unicode_len();
    let m = p.unicode_len();
    if m > n {
        return false;
    }
    let base = n - m;
    let mut j: usize = 0;
    while j < m
        invariant
            m <= n,
            n == s@.len(),
            m == p@.len(),
            base == n - m,
            j <= m,
            forall|l: int| 0 <= l < j ==> lower(s@)[base + l] == p@[l],
        decreases m - j,
    {
        if lower_char(s.get_char(base + j)) != p.get_char(j) {
            assert(lower(s@).subrange(n - m, n as int)[j as int] == lower(s@)[base + j]);
            return false;
        }
        j = j + 1;
    }
    assert(lower(s@).subrange(n - m, n as int) =~= p@);
    true
}

/// Exact equality of two string slices.
pub fn str_eq(a: &str, b: &str) -> (r: bool)
    ensures
        r == (a@ == b@),
{
    let n = a.unicode_len();
    if n != b.unicode_len() {
        return false;
    }
    let mut i: usize = 0;
    while i < n
        invariant
            n == a@.len(),
            n == b@.len(),
            i <= n,
            forall|l: int| 0 <= l < i ==> a@[l] == b@[l],
        decreases n - i,
    {
        if a.get_char(i) != b.get_char(i) {
            return false;
        }
        i = i + 1;
    }
    assert(a@ =~= b@);
    true
}

/// A decimal digit.
pub open spec fn spec_is_digit(c: char) -> bool {
    48 <= c as u32 && c as u32 <= 57
}

/// The numeric value of a decimal digit.
pub open spec fn digit_val(c: char) -> int {
    c as u32 - 48
}

#[verifier::when_used_as_spec(spec_is_digit)]
pub fn is_digit(c: char) -> (r: bool)
    ensures
        r == spec_is_digit(c),
{
    let u = c as u32;
    48 <= u && u <= 57
}

/// The numeric value of a decimal digit, as an executable computation.
pub fn digit_value(c: char) -> (r: u32)
    requires
        spec_is_digit(c),
    ensures
        r == digit_val(c),
        r <= 9,
{
    c as u32 - 48
}

} // verus!
