//! Deterministic hashing used for file identities and cache keys.
//!
//! A file's identity must be a pure function of its source URL, stable
//! across runs, because the cache is addressed by it.  The hash used here
//! is 64-bit FNV-1a over the URL's UTF-8 bytes, printed as lower-case hex.

use vstd::prelude::*;
use vstd::utf8::encode_utf8;

verus! {

pub const FNV_OFFSET: u64 = 0xcbf2_9ce4_8422_2325;

pub const FNV_PRIME: u64 = 0x0000_0100_0000_01b3;

/// One FNV-1a round: fold a 64-bit word into the running hash.
pub open spec fn fnv64_step(h: u64, w: u64) -> u64 {
    vstd::wrapping::u64_specs::wrapping_mul(h ^ w, FNV_PRIME)
}

/// FNV-1a over a byte sequence.
pub open spec fn fnv64(bytes: Seq<u8>) -> u64
    decreases bytes.len(),
{
    if bytes.len() == 0 {
        FNV_OFFSET
    } else {
        fnv64_step(fnv64(bytes.drop_last()), bytes.last() as u64)
    }
}

/// FNV-1a over a byte slice.
pub fn fnv64_bytes(bytes: &[u8]) -> (r: u64)
    ensures
        r == fnv64(bytes@),
{
    let mut h: u64 = FNV_OFFSET;
    let n = bytes.len();
    let mut i: usize = 0;
    while i < n
        invariant
            n == bytes@.len(),
            i <= n,
            h == fnv64(bytes@.subrange(0, i as int)),
        decreases n - i,
    {
        h = (h ^ (bytes[i] as u64)).wrapping_mul(FNV_PRIME);
        proof {
            assert(bytes@.subrange(0, i + 1).drop_last() =~= bytes@.subrange(0, i as int));
            assert(bytes@.subrange(0, i + 1).last() == bytes@[i as int]);
        }
        i = i + 1;
    }
    proof {
        assert(bytes@.subrange(0, n as int) =~= bytes@);
    }
    h
}

/// The hex character for one value below 16, lower case.
pub open spec fn hex_digit_char(n: int) -> char {
    if n == 0 {
        '0'
    } else if n == 1 {
        '1'
    } else if n == 2 {
        '2'
    } else if n == 3 {
        '3'
    } else if n == 4 {
        '4'
    } else if n == 5 {
        '5'
    } else if n == 6 {
        '6'
    } else if n == 7 {
        '7'
    } else if n == 8 {
        '8'
    } else if n == 9 {
        '9'
    } else if n == 10 {
        'a'
    } else if n == 11 {
        'b'
    } else if n == 12 {
        'c'
    } else if n == 13 {
        'd'
    } else if n == 14 {
        'e'
    } else {
        'f'
    }
}

/// Lower-case hex rendering of a number, without leading zeroes, as the
/// `{:x}` format writes it.
pub open spec fn u64_hex(n: nat) -> Seq<char>
    decreases n,
{
    if n < 16 {
        seq![hex_digit_char(n as int)]
    } else {
        u64_hex(n / 16) + seq![hex_digit_char((n % 16) as int)]
    }
}

/// The one-character string for one value below 16, lower case.
fn hex_digit_str(n: u64) -> (r: &'static str)
    requires
        n < 16,
    ensures
        r@ =~= seq![hex_digit_char(n as int)],
{
    let r: &'static str = if n == 0 {
        "0"
    } else if n == 1 {
        "1"
    } else if n == 2 {
        "2"
    } else if n == 3 {
        "3"
    } else if n == 4 {
        "4"
    } else if n == 5 {
        "5"
    } else if n == 6 {
        "6"
    } else if n == 7 {
        "7"
    } else if n == 8 {
        "8"
    } else if n == 9 {
        "9"
    } else if n == 10 {
        "a"
    } else if n == 11 {
        "b"
    } else if n == 12 {
        "c"
    } else if n == 13 {
        "d"
    } else if n == 14 {
        "e"
    } else {
        "f"
    };
    proof {
        reveal_strlit("0");
        reveal_strlit("1");
        reveal_strlit("2");
        reveal_strlit("3");
        reveal_strlit("4");
        reveal_strlit("5");
        reveal_strlit("6");
        reveal_strlit("7");
        reveal_strlit("8");
        reveal_strlit("9");
        reveal_strlit("a");
        reveal_strlit("b");
        reveal_strlit("c");
        reveal_strlit("d");
        reveal_strlit("e");
        reveal_strlit("f");
    }
    r
}

/// The hex digits of the accumulated low part, least significant digit
/// first in `digits`, rendered most significant first.
pub open spec fn hex_tail(digits: Seq<u64>) -> Seq<char>
    decreases digits.len(),
{
    if digits.len() == 0 {
        Seq::empty()
    } else {
        seq![hex_digit_char(digits.last() as int)] + hex_tail(digits.drop_last())
    }
}

/// Peeling the first (least significant) digit takes the last character.
proof fn lemma_hex_tail_first(digits: Seq<u64>)
    requires
        digits.len() > 0,
    ensures
        hex_tail(digits) == hex_tail(digits.drop_first()) + seq![
            hex_digit_char(digits.first() as int),
        ],
    decreases digits.len(),
{
    if digits.len() == 1 {
        assert(hex_tail(digits.drop_first()) =~= Seq::empty());
        assert(hex_tail(digits.drop_last()) =~= Seq::empty());
        assert(digits.first() == digits.last());
        assert(hex_tail(digits) =~= hex_tail(digits.drop_first()) + seq![
            hex_digit_char(digits.first() as int),
        ]);
    } else {
        let head = seq![hex_digit_char(digits.last() as int)];
        let foot = seq![hex_digit_char(digits.first() as int)];
        lemma_hex_tail_first(digits.drop_last());
        assert(digits.drop_last().first() == digits.first());
        assert(digits.drop_last().drop_first() =~= digits.drop_first().drop_last());
        assert(digits.drop_first().last() == digits.last());
        assert(hex_tail(digits) == head + hex_tail(digits.drop_last()));
        assert(hex_tail(digits.drop_last()) == hex_tail(digits.drop_first().drop_last()) + foot);
        assert(hex_tail(digits.drop_first()) == head + hex_tail(digits.drop_first().drop_last()));
        assert(hex_tail(digits) =~= hex_tail(digits.drop_first()) + foot);
    }
}

/// Append the lower-case hex rendering of `n` to `out`.
pub fn append_hex(out: &mut String, n: u64)
    ensures
        final(out)@ == old(out)@ + u64_hex(n as nat),
{
    let mut digits: Vec<u64> = Vec::new();
    let mut m = n;
    while m >= 16
        invariant
            u64_hex(n as nat) =~= u64_hex(m as nat) + hex_tail(digits@),
            forall|l: int| 0 <= l < digits@.len() ==> digits@[l] < 16,
            out@ == old(out)@,
        decreases m,
    {
        let d = m % 16;
        let ghost prev: u64 = m;
        let ghost before: Seq<u64> = digits@;
        m = m / 16;
        digits.push(d);
        proof {
            let dc = seq![hex_digit_char(d as int)];
            assert(digits@.last() == d);
            assert(digits@.drop_last() =~= before);
            assert(u64_hex(prev as nat) == u64_hex(m as nat) + dc);
            assert(hex_tail(digits@) == dc + hex_tail(before));
            assert(u64_hex(n as nat) =~= u64_hex(m as nat) + hex_tail(digits@));
        }
    }
    out.append(hex_digit_str(m));
    let ghost lead: Seq<char> = seq![hex_digit_char(m as int)];
    let mut k = digits.len();
    while k > 0
        invariant
            k <= digits@.len(),
            forall|l: int| 0 <= l < digits@.len() ==> digits@[l] < 16,
            u64_hex(n as nat) =~= lead + hex_tail(digits@),
            out@ =~= old(out)@ + lead + hex_tail(digits@.skip(k as int)),
        decreases k,
    {
        k = k - 1;
        out.append(hex_digit_str(digits[k]));
        proof {
            let rest = digits@.skip(k as int);
            lemma_hex_tail_first(rest);
            assert(rest.first() == digits@[k as int]);
            assert(rest.drop_first() =~= digits@.skip(k + 1));
        }
    }
    proof {
        assert(digits@.skip(0) =~= digits@);
        assert(out@ =~= old(out)@ + u64_hex(n as nat));
    }
}

/// Decimal rendering of a number, as the `{}` format writes it.
pub open spec fn u64_dec(n: nat) -> Seq<char>
    decreases n,
{
    if n < 10 {
        seq![hex_digit_char(n as int)]
    } else {
        u64_dec(n / 10) + seq![hex_digit_char((n % 10) as int)]
    }
}

/// Append the decimal rendering of `n` to `out`.
pub fn append_dec(out: &mut String, n: u64)
    ensures
        final(out)@ == old(out)@ + u64_dec(n as nat),
{
    let mut digits: Vec<u64> = Vec::new();
    let mut m = n;
    while m >= 10
        invariant
            u64_dec(n as nat) =~= u64_dec(m as nat) + hex_tail(digits@),
            forall|l: int| 0 <= l < digits@.len() ==> digits@[l] < 16,
            out@ == old(out)@,
        decreases m,
    {
        let d = m % 10;
        let ghost prev: u64 = m;
        let ghost before: Seq<u64> = digits@;
        m = m / 10;
        digits.push(d);
        proof {
            let dc = seq![hex_digit_char(d as int)];
            assert(digits@.last() == d);
            assert(digits@.drop_last() =~= before);
            assert(u64_dec(prev as nat) == u64_dec(m as nat) + dc);
            assert(hex_tail(digits@) == dc + hex_tail(before));
            assert(u64_dec(n as nat) =~= u64_dec(m as nat) + hex_tail(digits@));
        }
    }
    out.append(hex_digit_str(m));
    let ghost lead: Seq<char> = seq![hex_digit_char(m as int)];
    let mut k = digits.len();
    while k > 0
        invariant
            k <= digits@.len(),
            forall|l: int| 0 <= l < digits@.len() ==> digits@[l] < 16,
            u64_dec(n as nat) =~= lead + hex_tail(digits@),
            out@ =~= old(out)@ + lead + hex_tail(digits@.skip(k as int)),
        decreases k,
    {
        k = k - 1;
        out.append(hex_digit_str(digits[k]));
        proof {
            let rest = digits@.skip(k as int);
            lemma_hex_tail_first(rest);
            assert(rest.first() == digits@[k as int]);
            assert(rest.drop_first() =~= digits@.skip(k + 1));
        }
    }
    proof {
        assert(digits@.skip(0) =~= digits@);
        assert(out@ =~= old(out)@ + u64_dec(n as nat));
    }
}

/// A file's stable identity: a prefix and the hex FNV-1a hash of its URL.
pub open spec fn file_id_of(url: Seq<char>) -> Seq<char> {
    "uh_"@ + u64_hex(fnv64(encode_utf8(url)) as nat)
}

/// Generate a unique ID for a file based on its URL
pub fn generate_file_id(url: &str) -> (r: String)
    ensures
        r@ == file_id_of(url@),
{
    let mut r = String::from_str("uh_");
    let h = fnv64_bytes(url.as_bytes());
    append_hex(&mut r, h);
    r
}

} // verus!
