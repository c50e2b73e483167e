use vstd::prelude::*;

verus! {

/// Shortest textual form of a platform identifier.
pub const SNOWFLAKE_MIN_LEN: usize = 17;

/// Longest textual form of a platform identifier.
pub const SNOWFLAKE_MAX_LEN: usize = 20;

pub open spec fn is_ascii_digit(c: char) -> bool {
    '0' <= c && c <= '9'
}

pub open spec fn all_ascii_digits(s: Seq<char>) -> bool {
    forall|i: int| 0 <= i < s.len() ==> is_ascii_digit(#[trigger] s[i])
}

/// A snowflake is written as 17 to 20 ASCII digits.
pub open spec fn is_snowflake(s: Seq<char>) -> bool {
    &&& SNOWFLAKE_MIN_LEN <= s.len() <= SNOWFLAKE_MAX_LEN
    &&& all_ascii_digits(s)
}

/// Checks that `id` has the shape of a channel, author or message identifier.
pub fn validate_snowflake(id: &str) -> (r: bool)
    ensures
        r == is_snowflake(id@),
{
    let n = id.unicode_len();
    if n < SNOWFLAKE_MIN_LEN || n > SNOWFLAKE_MAX_LEN {
        return false;
    }
    let mut i: usize = 0;
    while i < n
        invariant
            n == id@.len(),
            i <= n,
            forall|j: int| 0 <= j < i ==> is_ascii_digit(#[trigger] id@[j]),
        decreases n - i,
    {
        let c = id.get_char(i);
        if !('0' <= c && c <= '9') {
            return false;
        }
        i = i + 1;
    }
    true
}

} // verus!
