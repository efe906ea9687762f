//! Decimal number parsing for configuration values, with the exact
//! semantics of the standard integer parsers: an optional sign, one or more
//! digits, and rejection of anything else or of a value out of range.

use vstd::prelude::*;
use vstd::string::StrSliceExecFns;

verus! {

/// Whether `c` is a decimal digit.
pub open spec fn is_digit(c: char) -> bool {
    '0' <= c && c <= '9'
}

/// The value of a digit character.
pub open spec fn digit_val(c: char) -> int {
    (c as u32) - 48
}

/// Whether every character is a decimal digit.
pub open spec fn all_digits(s: Seq<char>) -> bool {
    forall|i: int| 0 <= i < s.len() ==> is_digit(#[trigger] s[i])
}

/// The value of a digit string, most significant digit first.
pub open spec fn dec_value(s: Seq<char>) -> int
    decreases s.len(),
{
    if s.len() == 0 {
        0
    } else {
        dec_value(s.drop_last()) * 10 + digit_val(s.last())
    }
}

/// The digit part of a number with an optional leading sign.
pub open spec fn strip_sign(s: Seq<char>) -> Seq<char> {
    if s.len() > 0 && (s[0] == '+' || s[0] == '-') {
        s.drop_first()
    } else {
        s
    }
}

/// Whether the number is negative: a leading minus sign.
pub open spec fn is_negative(s: Seq<char>) -> bool {
    s.len() > 0 && s[0] == '-'
}

/// Whether `s` is a well-formed unsigned number within `u64`: an optional
/// plus sign, then one or more digits, with a value in range.
pub open spec fn parse_u64_ok(s: Seq<char>) -> bool {
    &&& !is_negative(s)
    &&& strip_sign(s).len() > 0
    &&& all_digits(strip_sign(s))
    &&& dec_value(strip_sign(s)) <= u64::MAX
}

/// Whether `s` is a well-formed signed number within `i64`.
pub open spec fn parse_i64_ok(s: Seq<char>) -> bool {
    &&& strip_sign(s).len() > 0
    &&& all_digits(strip_sign(s))
    &&& signed_value(s) >= i64::MIN
    &&& signed_value(s) <= i64::MAX
}

/// The signed value of a number with an optional leading sign.
pub open spec fn signed_value(s: Seq<char>) -> int {
    if is_negative(s) {
        -dec_value(strip_sign(s))
    } else {
        dec_value(strip_sign(s))
    }
}

/// The value of a digit string is never negative.
proof fn lemma_dec_value_nonneg(s: Seq<char>)
    requires
        all_digits(s),
    ensures
        dec_value(s) >= 0,
    decreases s.len(),
{
    if s.len() > 0 {
        assert(all_digits(s.drop_last()));
        lemma_dec_value_nonneg(s.drop_last());
    }
}

/// The value of a digit string is at least the value of any of its
/// prefixes.
proof fn lemma_dec_value_prefix(s: Seq<char>, m: int)
    requires
        all_digits(s),
        0 <= m <= s.len(),
    ensures
        dec_value(s) >= dec_value(s.take(m)),
    decreases s.len() - m,
{
    if m == s.len() {
        assert(s.take(m) =~= s);
    } else {
        lemma_dec_value_prefix(s, m + 1);
        assert(s.take(m + 1).drop_last() =~= s.take(m));
        assert(dec_value(s.take(m + 1)) == dec_value(s.take(m)) * 10 + digit_val(s[m]));
        assert(all_digits(s.take(m)));
        lemma_dec_value_nonneg(s.take(m));
    }
}

/// Parse the digits of `s` from position `start` on as a `u64`. Returns
/// the value exactly when all the remaining characters are digits, there is
/// at least one, and the value fits.
fn parse_digits(s: &str, start: usize) -> (r: Option<u64>)
    requires
        start <= s@.len(),
    ensures
        ({
            let digits = s@.subrange(start as int, s@.len() as int);
            match r {
                Some(v) => digits.len() > 0 && all_digits(digits) && v == dec_value(digits)
                    && dec_value(digits) <= u64::MAX,
                None => !(digits.len() > 0 && all_digits(digits) && dec_value(digits)
                    <= u64::MAX),
            }
        }),
{
    let ghost digits = s@.subrange(start as int, s@.len() as int);
    let n: usize = s.unicode_len();
    if start == n {
        return None;
    }
    let mut acc: u64 = 0;
    let mut i: usize = start;
    while i < n
        invariant
            start <= i <= n,
            n == s@.len(),
            digits == s@.subrange(start as int, n as int),
            all_digits(s@.subrange(start as int, i as int)),
            acc == dec_value(s@.subrange(start as int, i as int)),
        decreases n - i,
    {
        let c: char = s.get_char(i);
        let d: u32 = c as u32;
        if d < 48 || d > 57 {
            proof {
                assert(!is_digit(s@[i as int]));
                assert(digits[i - start] == s@[i as int]);
            }
            return None;
        }
        let digit: u64 = (d - 48) as u64;
        let ghost prefix = s@.subrange(start as int, i as int);
        let ghost prefix1 = s@.subrange(start as int, i as int + 1);
        proof {
            assert(prefix1.drop_last() =~= prefix);
            assert(dec_value(prefix1) == dec_value(prefix) * 10 + digit_val(s@[i as int]));
        }
        let step: u64 = match acc.checked_mul(10) {
            Some(a) => match a.checked_add(digit) {
                Some(b) => b,
                None => {
                    proof {
                        assert(all_digits(prefix1));
                        assert(dec_value(prefix1) > u64::MAX);
                        assert(prefix1 =~= digits.take(i - start + 1));
                        if all_digits(digits) {
                            lemma_dec_value_prefix(digits, i - start + 1);
                        }
                    }
                    return None;
                },
            },
            None => {
                proof {
                    lemma_dec_value_nonneg(prefix);
                    assert(all_digits(prefix1));
                    assert(dec_value(prefix1) > u64::MAX);
                    assert(prefix1 =~= digits.take(i - start + 1));
                    if all_digits(digits) {
                        lemma_dec_value_prefix(digits, i - start + 1);
                    }
                }
                return None;
            },
        };
        acc = step;
        i += 1;
    }
    proof {
        assert(s@.subrange(start as int, i as int) =~= digits);
    }
    Some(acc)
}

/// Parse an unsigned 64-bit number: an optional `+`, then digits, in
/// range; exactly the strings the standard `u64` parser accepts.
pub fn parse_u64(s: &str) -> (r: Option<u64>)
    ensures
        match r {
            Some(v) => parse_u64_ok(s@) && v == dec_value(strip_sign(s@)),
            None => !parse_u64_ok(s@),
        },
{
    let n: usize = s.unicode_len();
    let start: usize = if n > 0 && s.get_char(0) == '+' {
        1
    } else {
        0
    };
    if n > 0 && s.get_char(0) == '-' {
        return None;
    }
    let r = parse_digits(s, start);
    proof {
        if start == 1 {
            assert(strip_sign(s@) =~= s@.subrange(1, n as int));
        } else {
            assert(strip_sign(s@) =~= s@.subrange(0, n as int));
        }
    }
    r
}

/// Parse a signed 64-bit number: an optional sign, then digits, in range;
/// exactly the strings the standard `i64` parser accepts.
pub fn parse_i64(s: &str) -> (r: Option<i64>)
    ensures
        match r {
            Some(v) => parse_i64_ok(s@) && v == signed_value(s@),
            None => !parse_i64_ok(s@),
        },
{
    let n: usize = s.unicode_len();
    let negative: bool = n > 0 && s.get_char(0) == '-';
    let start: usize = if n > 0 && (s.get_char(0) == '+' || s.get_char(0) == '-') {
        1
    } else {
        0
    };
    proof {
        if start == 1 {
            assert(strip_sign(s@) =~= s@.subrange(1, n as int));
        } else {
            assert(strip_sign(s@) =~= s@.subrange(0, n as int));
        }
    }
    let magnitude: u64 = match parse_digits(s, start) {
        Some(v) => v,
        None => {
            proof {
                if all_digits(strip_sign(s@)) && strip_sign(s@).len() > 0 {
                    lemma_dec_value_nonneg(strip_sign(s@));
                }
            }
            return None;
        },
    };
    if negative {
        if magnitude <= 9223372036854775807u64 {
            Some(0i64 - (magnitude as i64))
        } else if magnitude == 9223372036854775808u64 {
            Some(i64::MIN)
        } else {
            None
        }
    } else {
        if magnitude <= 9223372036854775807u64 {
            Some(magnitude as i64)
        } else {
            None
        }
    }
}

/// Parse an unsigned 16-bit number, as the standard `u16` parser does.
pub fn parse_u16(s: &str) -> (r: Option<u16>)
    ensures
        match r {
            Some(v) => parse_u64_ok(s@) && dec_value(strip_sign(s@)) <= u16::MAX && v
                == dec_value(strip_sign(s@)),
            None => !(parse_u64_ok(s@) && dec_value(strip_sign(s@)) <= u16::MAX),
        },
{
    match parse_u64(s) {
        Some(v) => if v <= 65535u64 {
            Some(v as u16)
        } else {
            None
        },
        None => None,
    }
}

/// Parse an unsigned 32-bit number, as the standard `u32` parser does.
pub fn parse_u32(s: &str) -> (r: Option<u32>)
    ensures
        match r {
            Some(v) => parse_u64_ok(s@) && dec_value(strip_sign(s@)) <= u32::MAX && v
                == dec_value(strip_sign(s@)),
            None => !(parse_u64_ok(s@) && dec_value(strip_sign(s@)) <= u32::MAX),
        },
{
    match parse_u64(s) {
        Some(v) => if v <= 4294967295u64 {
            Some(v as u32)
        } else {
            None
        },
        None => None,
    }
}

/// Parse an unsigned pointer-sized number, as the standard `usize` parser
/// does.
pub fn parse_usize(s: &str) -> (r: Option<usize>)
    ensures
        match r {
            Some(v) => parse_u64_ok(s@) && dec_value(strip_sign(s@)) <= usize::MAX && v
                == dec_value(strip_sign(s@)),
            None => !(parse_u64_ok(s@) && dec_value(strip_sign(s@)) <= usize::MAX),
        },
{
    match parse_u64(s) {
        Some(v) => if v <= usize::MAX as u64 {
            Some(v as usize)
        } else {
            None
        },
        None => None,
    }
}

} // verus!
