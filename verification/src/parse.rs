//! Parsing of the configured wait duration.
//!
//! The wait duration reaches the controller as the text the user typed. It is
//! accepted exactly when it is a non-empty string of decimal digits whose
//! value fits in a `u64`; anything else is rejected and the state machine
//! refuses to start a countdown.

use vstd::prelude::*;

verus! {

/// A decimal digit, `'0'` through `'9'`.
pub open spec fn is_dec_digit(c: char) -> bool {
    48 <= c as int && c as int <= 57
}

/// The numeric value of a decimal digit.
pub open spec fn digit_value(c: char) -> int {
    c as int - 48
}

/// Every character of `s` is a decimal digit.
pub open spec fn all_dec_digits(s: Seq<char>) -> bool {
    forall|i: int| 0 <= i < s.len() ==> is_dec_digit(#[trigger] s[i])
}

/// The value of a digit string read in base ten.
pub open spec fn dec_value(s: Seq<char>) -> int
    decreases s.len(),
{
    if s.len() == 0 {
        0
    } else {
        dec_value(s.drop_last()) * 10 + digit_value(s.last())
    }
}

/// What parsing a configured duration yields: the number of minutes, or
/// nothing when the text is empty, holds a non-digit, or overflows `u64`.
pub open spec fn spec_parse_duration(s: Seq<char>) -> Option<u64> {
    if s.len() > 0 && all_dec_digits(s) && dec_value(s) <= u64::MAX {
        Some(dec_value(s) as u64)
    } else {
        None
    }
}

/// A digit string has a non-negative value.
proof fn lemma_dec_value_nonneg(s: Seq<char>)
    requires
        all_dec_digits(s),
    ensures
        dec_value(s) >= 0,
    decreases s.len(),
{
    if s.len() > 0 {
        assert forall|i: int| 0 <= i < s.drop_last().len() implies is_dec_digit(
            #[trigger] s.drop_last()[i],
        ) by {
            assert(s.drop_last()[i] == s[i]);
        }
        lemma_dec_value_nonneg(s.drop_last());
    }
}

/// Every prefix of an all-digit string is all digits.
proof fn lemma_all_dec_digits_take(s: Seq<char>, i: int)
    requires
        all_dec_digits(s),
        0 <= i <= s.len(),
    ensures
        all_dec_digits(s.take(i)),
{
    assert forall|k: int| 0 <= k < s.take(i).len() implies is_dec_digit(
        #[trigger] s.take(i)[k],
    ) by {
        assert(s.take(i)[k] == s[k]);
    }
}

/// Reading one more digit multiplies the prefix value by ten and adds it.
proof fn lemma_dec_value_step(s: Seq<char>, i: int)
    requires
        0 <= i < s.len(),
    ensures
        dec_value(s.take(i + 1)) == dec_value(s.take(i)) * 10 + digit_value(s[i]),
{
    let t = s.take(i + 1);
    assert(t.drop_last() =~= s.take(i));
    assert(t.last() == s[i]);
}

/// On an all-digit string, the value of a longer prefix is at least the value
/// of a shorter one.
proof fn lemma_dec_value_prefix_le(s: Seq<char>, i: int, j: int)
    requires
        all_dec_digits(s),
        0 <= i <= j <= s.len(),
    ensures
        dec_value(s.take(i)) <= dec_value(s.take(j)),
    decreases j - i,
{
    if i < j {
        lemma_dec_value_prefix_le(s, i, j - 1);
        lemma_dec_value_step(s, j - 1);
        lemma_all_dec_digits_take(s, j - 1);
        lemma_dec_value_nonneg(s.take(j - 1));
    }
}

/// Parse the configured duration text as a number of minutes.
///
/// Returns the value exactly when the text is a non-empty string of decimal
/// digits and the value fits in a `u64`; returns nothing otherwise.
pub fn parse_duration(s: &str) -> (r: Option<u64>)
    ensures
        r == spec_parse_duration(s@),
{
    let n = s.unicode_len();
    if n == 0 {
        return None;
    }
    let mut acc: u64 = 0;
    let mut i: usize = 0;
    while i < n
        invariant
            n == s@.len(),
            i <= n,
            all_dec_digits(s@.take(i as int)),
            acc == dec_value(s@.take(i as int)),
        decreases n - i,
    {
        let c = s.get_char(i);
        let cv = c as u32;
        if cv < 48 || cv > 57 {
            // A non-digit anywhere means the whole text is rejected.
            assert(!is_dec_digit(s@[i as int]));
            return None;
        }
        let d = (cv - 48) as u64;
        let wide: u128 = (acc as u128) * 10 + (d as u128);
        proof {
            lemma_dec_value_step(s@, i as int);
        }
        if wide > u64::MAX as u128 {
            // The digits seen so far already exceed `u64`; since appending
            // digits can only grow the value, the whole text overflows —
            // unless some later character is a non-digit, which rejects the
            // text as well.
            proof {
                if all_dec_digits(s@) {
                    lemma_dec_value_prefix_le(s@, i as int + 1, s@.len() as int);
                    assert(s@.take(s@.len() as int) =~= s@);
                }
            }
            return None;
        }
        acc = wide as u64;
        proof {
            assert forall|k: int| 0 <= k < s@.take(i as int + 1).len() implies is_dec_digit(
                #[trigger] s@.take(i as int + 1)[k],
            ) by {
                assert(s@.take(i as int + 1)[k] == s@[k]);
                if k < i as int {
                    assert(s@.take(i as int)[k] == s@[k]);
                }
            }
        }
        i = i + 1;
    }
    proof {
        assert(s@.take(n as int) =~= s@);
    }
    Some(acc)
}

} // verus!
