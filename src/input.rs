use vstd::prelude::*;
use crate::snowflake::{all_ascii_digits, is_ascii_digit};

verus! {

/// Why a typed number was not accepted.
#[derive(Debug, Clone, Copy, PartialEq, Eq, Structural)]
pub enum NumberInputError {
    /// The text is a number, but outside the allowed bounds.
    OutOfRange { min: u64, max: u64 },
    /// The text is not an unsigned decimal number that fits in 64 bits.
    InvalidFormat,
}

pub open spec fn digit_value(c: char) -> nat {
    (c as nat - '0' as nat) as nat
}

/// The value of a string of decimal digits, most significant first.
pub open spec fn decimal_value(s: Seq<char>) -> nat
    decreases s.len(),
{
    if s.len() == 0 {
        0
    } else {
        decimal_value(s.drop_last()) * 10 + digit_value(s.last())
    }
}

/// The digits of an unsigned decimal: the text, less one optional leading `+`.
pub open spec fn unsigned_digits(s: Seq<char>) -> Seq<char> {
    if s.len() > 0 && s[0] == '+' {
        s.subrange(1, s.len() as int)
    } else {
        s
    }
}

/// The `u64` that the text spells in decimal, if it spells one.
pub open spec fn parsed_u64(s: Seq<char>) -> Option<u64> {
    let d = unsigned_digits(s);
    if d.len() > 0 && all_ascii_digits(d) && decimal_value(d) <= u64::MAX {
        Some(decimal_value(d) as u64)
    } else {
        None
    }
}

/// What a typed bounded number means: the default when nothing was typed.
pub open spec fn number_input_result(s: Seq<char>, min: u64, max: u64, default: u64) -> Result<
    u64,
    NumberInputError,
> {
    if s.len() == 0 {
        Ok(default)
    } else {
        match parsed_u64(s) {
            Some(n) => if min <= n && n <= max {
                Ok(n)
            } else {
                Err(NumberInputError::OutOfRange { min, max })
            },
            None => Err(NumberInputError::InvalidFormat),
        }
    }
}

proof fn lemma_decimal_value_grows(s: Seq<char>, i: int, j: int)
    requires
        0 <= i <= j <= s.len(),
    ensures
        decimal_value(s.take(i)) <= decimal_value(s.take(j)),
    decreases j - i,
{
    if i < j {
        lemma_decimal_value_grows(s, i, j - 1);
        assert(s.take(j).drop_last() =~= s.take(j - 1));
    }
}

/// Reads an unsigned decimal number, with an optional leading `+`.
pub fn parse_u64(s: &str) -> (r: Option<u64>)
    ensures
        r == parsed_u64(s@),
{
    let n = s.unicode_len();
    let mut i: usize = 0;
    if n > 0 && s.get_char(0) == '+' {
        i = 1;
    }
    let start = i;
    let ghost d = unsigned_digits(s@);
    assert(d =~= s@.subrange(start as int, n as int));
    if start == n {
        return None;
    }
    let mut acc: u64 = 0;
    let mut overflow = false;
    while i < n
        invariant
            n == s@.len(),
            start <= i <= n,
            d == s@.subrange(start as int, n as int),
            d == unsigned_digits(s@),
            forall|k: int| 0 <= k < i - start ==> is_ascii_digit(#[trigger] d[k]),
            !overflow ==> acc as nat == decimal_value(d.take(i - start)),
            overflow ==> decimal_value(d.take(i - start)) > u64::MAX,
        decreases n - i,
    {
        let c = s.get_char(i);
        assert(c == d[i - start]);
        if !('0' <= c && c <= '9') {
            assert(!is_ascii_digit(d[i - start]));
            assert(!all_ascii_digits(d));
            return None;
        }
        let ghost k = i - start;
        assert(d.take(k + 1).drop_last() =~= d.take(k));
        assert(d.take(k + 1).last() == c);
        let dv = (c as u32 - '0' as u32) as u64;
        if !overflow {
            if acc > (u64::MAX - dv) / 10 {
                overflow = true;
                assert(acc * 10 + dv > u64::MAX) by (nonlinear_arith)
                    requires
                        acc > (u64::MAX - dv) / 10,
                        dv <= 9,
                ;
            } else {
                assert(acc * 10 + dv <= u64::MAX) by (nonlinear_arith)
                    requires
                        acc <= (u64::MAX - dv) / 10,
                        dv <= 9,
                ;
                acc = acc * 10 + dv;
            }
        } else {
            proof {
                lemma_decimal_value_grows(d, k, k + 1);
            }
        }
        i = i + 1;
    }
    assert(d.take(n - start) =~= d);
    if overflow {
        None
    } else {
        Some(acc)
    }
}

/// Turns a typed line (already trimmed) into a number in `[min, max]`;
/// an empty line stands for `default`.
pub fn read_number_input(input: &str, min: u64, max: u64, default: u64) -> (r: Result<
    u64,
    NumberInputError,
>)
    ensures
        r == number_input_result(input@, min, max, default),
{
    if input.unicode_len() == 0 {
        return Ok(default);
    }
    match parse_u64(input) {
        Some(num) => {
            if num >= min && num <= max {
                Ok(num)
            } else {
                Err(NumberInputError::OutOfRange { min, max })
            }
        },
        None => Err(NumberInputError::InvalidFormat),
    }
}

} // verus!
