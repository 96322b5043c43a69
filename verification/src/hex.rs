//! Parsing of `0x`-prefixed hexadecimal quantity strings.
//!
//! Block fields arrive on the wire as hexadecimal strings with a mandatory
//! `0x` prefix; the prefix is stripped and the rest is read in base 16.

use vstd::prelude::*;

verus! {

/// True when `c` is an ASCII hexadecimal digit.
pub open spec fn is_hex_digit(c: char) -> bool {
    ('0' as u32 <= c as u32 && c as u32 <= '9' as u32)
        || ('a' as u32 <= c as u32 && c as u32 <= 'f' as u32)
        || ('A' as u32 <= c as u32 && c as u32 <= 'F' as u32)
}

/// Numeric value of one hexadecimal digit; 0 for any other character.
pub open spec fn hex_digit_value(c: char) -> nat {
    if '0' as u32 <= c as u32 && c as u32 <= '9' as u32 {
        (c as u32 - '0' as u32) as nat
    } else if 'a' as u32 <= c as u32 && c as u32 <= 'f' as u32 {
        (c as u32 - 'a' as u32 + 10) as nat
    } else if 'A' as u32 <= c as u32 && c as u32 <= 'F' as u32 {
        (c as u32 - 'A' as u32 + 10) as nat
    } else {
        0
    }
}

/// True when every character of `s` is a hexadecimal digit.
pub open spec fn all_hex_digits(s: Seq<char>) -> bool {
    forall|i: int| 0 <= i < s.len() ==> is_hex_digit(#[trigger] s[i])
}

/// Integer value of a big-endian sequence of hexadecimal digits.
pub open spec fn hex_value(s: Seq<char>) -> nat
    decreases s.len(),
{
    if s.len() == 0 {
        0
    } else {
        16 * hex_value(s.drop_last()) + hex_digit_value(s.last())
    }
}

/// A well-formed quantity string: `0x`, then at least one hexadecimal digit.
pub open spec fn valid_hex_str(s: Seq<char>) -> bool {
    s.len() >= 3 && s[0] == '0' && s[1] == 'x' && all_hex_digits(s.subrange(2, s.len() as int))
}

/// The integer a well-formed quantity string denotes.
pub open spec fn hex_str_value(s: Seq<char>) -> nat {
    hex_value(s.subrange(2, s.len() as int))
}

/// True when `s` is well formed and its value fits in a `u64`.
pub open spec fn parses_to_u64(s: Seq<char>) -> bool {
    valid_hex_str(s) && hex_str_value(s) <= u64::MAX
}

/// A digit sequence never denotes less than any of its prefixes.
proof fn lemma_hex_value_prefix(s: Seq<char>, k: int)
    requires
        0 <= k <= s.len(),
    ensures
        hex_value(s.subrange(0, k)) <= hex_value(s),
    decreases s.len() - k,
{
    if k == s.len() {
        assert(s.subrange(0, k) =~= s);
    } else {
        let t = s.subrange(0, k + 1);
        assert(t.drop_last() =~= s.subrange(0, k));
        assert(hex_value(s.subrange(0, k)) <= hex_value(t));
        lemma_hex_value_prefix(s, k + 1);
    }
}

/// Digit value of one character.
fn hex_digit_of(c: char) -> (r: Option<u64>)
    ensures
        r is Some <==> is_hex_digit(c),
        is_hex_digit(c) ==> r == Some(hex_digit_value(c) as u64),
{
    let u: u32 = c as u32;
    if '0' as u32 <= u && u <= '9' as u32 {
        Some((u - '0' as u32) as u64)
    } else if 'a' as u32 <= u && u <= 'f' as u32 {
        Some((u - 'a' as u32 + 10) as u64)
    } else if 'A' as u32 <= u && u <= 'F' as u32 {
        Some((u - 'A' as u32 + 10) as u64)
    } else {
        None
    }
}

/// Parses a `0x`-prefixed hexadecimal string as an unsigned 64-bit integer.
///
/// Returns `None` — it never panics — when the prefix is missing, when no
/// digit follows it, when a non-hex character occurs after it, or when the
/// value does not fit in 64 bits.
pub fn parse_hex_u64(s: &str) -> (r: Option<u64>)
    ensures
        r is Some <==> parses_to_u64(s@),
        parses_to_u64(s@) ==> r == Some(hex_str_value(s@) as u64),
{
    let n: usize = s.unicode_len();
    if n < 3 {
        return None;
    }
    if s.get_char(0) != '0' || s.get_char(1) != 'x' {
        return None;
    }
    let ghost suffix = s@.subrange(2, s@.len() as int);
    let mut acc: u64 = 0;
    let mut i: usize = 2;
    while i < n
        invariant
            2 <= i <= n,
            n == s@.len(),
            s@[0] == '0' && s@[1] == 'x',
            suffix == s@.subrange(2, s@.len() as int),
            all_hex_digits(s@.subrange(2, i as int)),
            acc == hex_value(s@.subrange(2, i as int)),
        decreases n - i,
    {
        let c = s.get_char(i);
        let d: u64 = match hex_digit_of(c) {
            Some(d) => d,
            None => {
                assert(!all_hex_digits(suffix)) by {
                    assert(suffix[i - 2] == s@[i as int]);
                }
                return None;
            },
        };
        proof {
            let prefix = s@.subrange(2, i as int);
            let ext = s@.subrange(2, i + 1);
            assert(ext.drop_last() =~= prefix);
            assert(ext.last() == s@[i as int]);
            assert(hex_value(ext) == 16 * acc + d);
        }
        if acc > (u64::MAX - d) / 16 {
            proof {
                assert(16 * acc + d > u64::MAX);
                assert(s@.subrange(2, i + 1) =~= suffix.subrange(0, i - 1));
                lemma_hex_value_prefix(suffix, i - 1);
                assert(hex_str_value(s@) > u64::MAX);
            }
            return None;
        }
        acc = acc * 16 + d;
        i = i + 1;
    }
    proof {
        assert(s@.subrange(2, i as int) =~= suffix);
        assert(valid_hex_str(s@));
    }
    Some(acc)
}

} // verus!
