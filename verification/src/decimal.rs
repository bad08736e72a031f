//! Decimal numbers typed on the serial console.
//!
//! A byte string is a `u16` when it is an optional `+` followed by one or more
//! ASCII digits whose value fits in 16 bits; leading zeros are allowed and
//! nothing else (no sign `-`, no spaces). These are the strings that
//! `core::str::from_utf8` followed by `str::parse::<u16>` accepts: every such
//! string is ASCII, so the UTF-8 step refuses nothing that the number syntax
//! would accept.
use vstd::prelude::*;

verus! {

/// An ASCII decimal digit.
pub open spec fn is_digit(b: u8) -> bool {
    48 <= b <= 57
}

/// Every byte is an ASCII decimal digit.
pub open spec fn all_digits(s: Seq<u8>) -> bool {
    forall|i: int| 0 <= i < s.len() ==> is_digit(#[trigger] s[i])
}

/// The value of a string of decimal digits, most significant first.
pub open spec fn digits_value(s: Seq<u8>) -> nat
    decreases s.len(),
{
    if s.len() == 0 {
        0
    } else {
        digits_value(s.drop_last()) * 10 + (s.last() - 48) as nat
    }
}

/// The string without its leading `+`, if it has one.
pub open spec fn unsigned_digits(s: Seq<u8>) -> Seq<u8> {
    if s.len() > 0 && s[0] == 43 {
        s.drop_first()
    } else {
        s
    }
}

/// The `u16` that the string denotes, or `None` when it denotes none.
pub open spec fn spec_parse_u16(s: Seq<u8>) -> Option<u16> {
    let d = unsigned_digits(s);
    if d.len() > 0 && all_digits(d) && digits_value(d) <= 65535 {
        Some(digits_value(d) as u16)
    } else {
        None
    }
}

/// A string of digits is worth at least as much as any of its prefixes.
proof fn lemma_prefix_value_le(d: Seq<u8>, k: int)
    requires
        all_digits(d),
        0 <= k <= d.len(),
    ensures
        digits_value(d.take(k)) <= digits_value(d),
    decreases d.len(),
{
    if k < d.len() {
        assert(d.drop_last().take(k) =~= d.take(k));
        lemma_prefix_value_le(d.drop_last(), k);
    } else {
        assert(d.take(k) =~= d);
    }
}

/// Parse a decimal `u16` from the bytes of a console line.
pub fn parse_u16(input: &[u8]) -> (r: Option<u16>)
    ensures
        r == spec_parse_u16(input@),
{
    let n = input.len();
    let start: usize = if n > 0 && input[0] == 43 { 1 } else { 0 };
    let ghost d = unsigned_digits(input@);
    assert(d =~= input@.subrange(start as int, n as int));
    if start == n {
        return None;
    }
    let mut acc: u32 = 0;
    let mut i: usize = start;
    while i < n
        invariant
            start <= i <= n,
            n == input@.len(),
            d =~= input@.subrange(start as int, n as int),
            d == unsigned_digits(input@),
            acc <= 65535,
            acc == digits_value(d.take(i - start)),
            all_digits(d.take(i - start)),
        decreases n - i,
    {
        let b = input[i];
        assert(d[i - start] == b);
        if b < 48 || b > 57 {
            assert(!is_digit(d[i - start]));
            assert(!all_digits(d));
            return None;
        }
        let ghost k = i - start;
        assert(d.take(k + 1).drop_last() =~= d.take(k));
        assert(d.take(k + 1).last() == b);
        acc = acc * 10 + (b - 48) as u32;
        i = i + 1;
        assert(all_digits(d.take(k + 1))) by {
            assert forall|j: int| 0 <= j < k + 1 implies is_digit(#[trigger] d.take(k + 1)[j]) by {
                if j < k {
                    assert(d.take(k + 1)[j] == d.take(k)[j]);
                }
            }
        }
        if acc > 65535 {
            proof {
                if all_digits(d) {
                    lemma_prefix_value_le(d, k + 1);
                }
            }
            return None;
        }
    }
    assert(d.take(n - start) =~= d);
    Some(acc as u16)
}

} // verus!
