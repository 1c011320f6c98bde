//! Decimal integers written as text: an optional sign and a run of digits.

use vstd::prelude::*;
use vstd::string::{StrSliceExecFns, StringSliceAdditionalSpecFns};

verus! {

/// The value of a decimal digit; `None` for every other character.
pub open spec fn digit_value(c: char) -> Option<nat> {
    if '0' <= c <= '9' {
        Some((c as int - '0' as int) as nat)
    } else {
        None
    }
}

/// The number that a run of decimal digits writes, most significant digit
/// first; `None` if a character of the run is not a digit. The empty run
/// writes zero.
pub open spec fn digits_value(s: Seq<char>) -> Option<nat>
    decreases s.len(),
{
    if s.len() == 0 {
        Some(0)
    } else {
        match (digits_value(s.drop_last()), digit_value(s.last())) {
            (Some(high), Some(low)) => Some(10 * high + low),
            _ => None,
        }
    }
}

/// The integer that a text writes in decimal: a `+` sign or none, or a `-`
/// sign where `signed` holds, and then at least one digit and nothing else.
pub open spec fn decimal_value(s: Seq<char>, signed: bool) -> Option<int> {
    if s.len() == 0 {
        None
    } else if s[0] == '+' || (signed && s[0] == '-') {
        if s.len() == 1 {
            None
        } else {
            match digits_value(s.skip(1)) {
                Some(magnitude) => Some(
                    if s[0] == '-' {
                        -(magnitude as int)
                    } else {
                        magnitude as int
                    },
                ),
                None => None,
            }
        }
    } else {
        match digits_value(s) {
            Some(magnitude) => Some(magnitude as int),
            None => None,
        }
    }
}

/// The unsigned 16-bit number that a text writes, if it writes one.
pub open spec fn parse_u16_spec(s: Seq<char>) -> Option<u16> {
    match decimal_value(s, false) {
        Some(v) => if v <= u16::MAX {
            Some(v as u16)
        } else {
            None
        },
        None => None,
    }
}

/// The signed 64-bit number that a text writes, if it writes one.
pub open spec fn parse_i64_spec(s: Seq<char>) -> Option<i64> {
    match decimal_value(s, true) {
        Some(v) => if i64::MIN <= v <= i64::MAX {
            Some(v as i64)
        } else {
            None
        },
        None => None,
    }
}

/// A run of digits that writes a number of at most `limit`, as that number.
pub open spec fn bounded_digits(s: Seq<char>, limit: nat) -> Option<u64> {
    match digits_value(s) {
        Some(v) => if v <= limit {
            Some(v as u64)
        } else {
            None
        },
        None => None,
    }
}

/// A run of digits writes a number only if each of its prefixes writes one,
/// and no prefix writes a larger number than the whole run.
pub proof fn lemma_digits_prefix(s: Seq<char>, k: int)
    requires
        0 <= k <= s.len(),
        digits_value(s) is Some,
    ensures
        digits_value(s.take(k)) is Some,
        digits_value(s.take(k))->0 <= digits_value(s)->0,
    decreases s.len(),
{
    if k == s.len() {
        assert(s.take(k) =~= s);
    } else {
        assert(s.drop_last().take(k) =~= s.take(k));
        lemma_digits_prefix(s.drop_last(), k);
    }
}

/// Every character of a run of digits that writes a number is a digit.
pub proof fn lemma_digits_are_digits(s: Seq<char>, i: int)
    requires
        0 <= i < s.len(),
        digits_value(s) is Some,
    ensures
        digit_value(s[i]) is Some,
{
    lemma_digits_prefix(s, i + 1);
    assert(s.take(i + 1).last() == s[i]);
}

/// A text that writes a decimal integer consists of ASCII characters.
pub proof fn lemma_decimal_is_ascii(s: Seq<char>, signed: bool)
    requires
        decimal_value(s, signed) is Some,
    ensures
        vstd::utf8::is_ascii_chars(s),
{
    assert forall|i: int| 0 <= i < s.len() implies '\0' <= #[trigger] s[i] <= '\u{7f}' by {
        if s[0] == '+' || (signed && s[0] == '-') {
            if i > 0 {
                lemma_digits_are_digits(s.skip(1), i - 1);
            }
        } else {
            lemma_digits_are_digits(s, i);
        }
    }
}

/// Reads the run of digits that `s` holds from position `start` to its end,
/// as long as the number stays within `limit`.
fn parse_digits(s: &str, start: usize, limit: u64) -> (r: Option<u64>)
    requires
        s.is_ascii(),
        start <= s@.len(),
    ensures
        r == bounded_digits(s@.skip(start as int), limit as nat),
{
    let bytes: &[u8] = s.as_bytes();
    let n: usize = bytes.len();
    proof {
        vstd::string::is_ascii_spec_bytes(s);
    }
    let ghost run = s@.skip(start as int);
    let mut acc: u64 = 0;
    let mut i: usize = start;
    while i < n
        invariant
            s.is_ascii(),
            bytes@ == s.spec_bytes(),
            n == s@.len(),
            start <= i <= n,
            run == s@.skip(start as int),
            digits_value(run.take(i - start)) == Some(acc as nat),
            acc <= limit,
        decreases n - i,
    {
        proof {
            vstd::string::is_ascii_spec_bytes(s);
        }
        let b: u8 = bytes[i];
        assert(run.take(i - start + 1).drop_last() =~= run.take(i - start));
        assert(run.take(i - start + 1).last() == s@[i as int]);
        if b < 48 || b > 57 {
            proof {
                if digits_value(run) is Some {
                    lemma_digits_prefix(run, i - start + 1);
                }
            }
            return None;
        }
        let next: u128 = acc as u128 * 10 + (b - 48) as u128;
        if next > limit as u128 {
            proof {
                if digits_value(run) is Some {
                    lemma_digits_prefix(run, i - start + 1);
                }
            }
            return None;
        }
        acc = next as u64;
        i = i + 1;
    }
    assert(run.take(i - start) =~= run);
    Some(acc)
}

/// Reads an unsigned 16-bit number written in decimal, with a `+` sign or
/// none. Anything else, an empty text and a number that does not fit
/// included, gives `None`.
pub fn parse_u16(s: &str) -> (r: Option<u16>)
    ensures
        r == parse_u16_spec(s@),
{
    if !s.is_ascii() {
        proof {
            if decimal_value(s@, false) is Some {
                lemma_decimal_is_ascii(s@, false);
            }
        }
        return None;
    }
    let n: usize = s.as_bytes().len();
    proof {
        vstd::string::is_ascii_spec_bytes(s);
    }
    if n == 0 {
        return None;
    }
    let start: usize = if s.get_ascii(0) == 43 {
        1
    } else {
        0
    };
    if start == n {
        return None;
    }
    assert(s@.skip(0) =~= s@);
    match parse_digits(s, start, 65535) {
        Some(v) => Some(v as u16),
        None => None,
    }
}

/// Reads a signed 64-bit number written in decimal, with a `+` or `-` sign
/// or none. Anything else, an empty text and a number that does not fit
/// included, gives `None`.
pub fn parse_i64(s: &str) -> (r: Option<i64>)
    ensures
        r == parse_i64_spec(s@),
{
    if !s.is_ascii() {
        proof {
            if decimal_value(s@, true) is Some {
                lemma_decimal_is_ascii(s@, true);
            }
        }
        return None;
    }
    let n: usize = s.as_bytes().len();
    proof {
        vstd::string::is_ascii_spec_bytes(s);
    }
    if n == 0 {
        return None;
    }
    let first: u8 = s.get_ascii(0);
    let negative: bool = first == 45;
    let start: usize = if first == 43 || first == 45 {
        1
    } else {
        0
    };
    if start == n {
        return None;
    }
    assert(s@.skip(0) =~= s@);
    let limit: u64 = if negative {
        0x8000_0000_0000_0000
    } else {
        0x7fff_ffff_ffff_ffff
    };
    match parse_digits(s, start, limit) {
        Some(v) => if !negative {
            Some(v as i64)
        } else if v == 0x8000_0000_0000_0000 {
            Some(i64::MIN)
        } else {
            Some(-(v as i64))
        },
        None => None,
    }
}

} // verus!
