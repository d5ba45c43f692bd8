//! Decimal text: the value of a digit string, and verified parsers for
//! the two widths the crate stores and reads.

use vstd::prelude::*;

verus! {

/// An ASCII decimal digit.
pub open spec fn is_digit(c: char) -> bool {
    48 <= c as int <= 57
}

/// The numeric value of one digit.
pub open spec fn digit_val(c: char) -> int {
    c as int - 48
}

/// Every character of `s` is a decimal digit.
pub open spec fn all_digits(s: Seq<char>) -> bool {
    forall|i: int| 0 <= i < s.len() ==> is_digit(#[trigger] s[i])
}

/// The number a digit string denotes, most significant digit first.
pub open spec fn digits_value(s: Seq<char>) -> int
    decreases s.len(),
{
    if s.len() == 0 {
        0
    } else {
        digits_value(s.drop_last()) * 10 + digit_val(s.last())
    }
}

/// A digit string that denotes a `u32`: non-empty, digits only, in range.
pub open spec fn valid_u32_digits(s: Seq<char>) -> bool {
    s.len() > 0 && all_digits(s) && digits_value(s) <= u32::MAX
}

/// A digit string denotes a non-negative number.
pub proof fn lemma_digits_value_nonneg(s: Seq<char>)
    requires
        all_digits(s),
    ensures
        digits_value(s) >= 0,
    decreases s.len(),
{
    if s.len() > 0 {
        assert(all_digits(s.drop_last()));
        lemma_digits_value_nonneg(s.drop_last());
    }
}

/// Extending a digit string to the right never shrinks its value.
pub proof fn lemma_digits_value_mono(s: Seq<char>, i: int, j: int)
    requires
        all_digits(s),
        0 <= i <= j <= s.len(),
    ensures
        digits_value(s.subrange(0, i)) <= digits_value(s.subrange(0, j)),
    decreases j - i,
{
    if i < j {
        lemma_digits_value_mono(s, i, j - 1);
        let pre = s.subrange(0, j - 1);
        let cur = s.subrange(0, j);
        assert(cur.drop_last() =~= pre);
        assert(all_digits(pre));
        lemma_digits_value_nonneg(pre);
        assert(digits_value(cur) == digits_value(pre) * 10 + digit_val(s[j - 1]));
    }
}

/// Parse a decimal digit string as a `u32`: `Some` exactly on the strings
/// that are non-empty, all digits, and in range.
pub fn parse_u32_digits(s: &str) -> (r: Option<u32>)
    ensures
        valid_u32_digits(s@) ==> r == Option::Some(digits_value(s@) as u32),
        !valid_u32_digits(s@) ==> r is None,
{
    let n = s.unicode_len();
    if n == 0 {
        return Option::None;
    }
    let mut i: usize = 0;
    let mut acc: u64 = 0;
    while i < n
        invariant
            n == s@.len(),
            i <= n,
            all_digits(s@.subrange(0, i as int)),
            acc == digits_value(s@.subrange(0, i as int)),
            acc <= u32::MAX,
        decreases n - i,
    {
        let c = s.get_char(i);
        let cv = c as u32;
        if cv < 48 || cv > 57 {
            assert(!is_digit(s@[i as int]));
            return Option::None;
        }
        let d: u64 = (cv - 48) as u64;
        let next: u64 = acc * 10 + d;
        proof {
            assert(s@.subrange(0, i as int + 1).drop_last() =~= s@.subrange(0, i as int));
            assert(digits_value(s@.subrange(0, i as int + 1)) == acc * 10 + digit_val(
                s@[i as int],
            ));
        }
        if next > 0xffff_ffff {
            proof {
                if all_digits(s@) {
                    lemma_digits_value_mono(s@, i as int + 1, n as int);
                    assert(s@.subrange(0, n as int) =~= s@);
                }
            }
            return Option::None;
        }
        acc = next;
        i = i + 1;
    }
    proof {
        assert(s@.subrange(0, n as int) =~= s@);
    }
    Option::Some(acc as u32)
}

/// Parse a decimal digit string as a `u8`: `Some` exactly on the strings
/// that are non-empty, all digits, and at most 255.
pub fn parse_u8_digits(s: &str) -> (r: Option<u8>)
    ensures
        valid_u32_digits(s@) && digits_value(s@) <= u8::MAX ==> r == Option::Some(
            digits_value(s@) as u8,
        ),
        !(valid_u32_digits(s@) && digits_value(s@) <= u8::MAX) ==> r is None,
{
    proof {
        if valid_u32_digits(s@) {
            lemma_digits_value_nonneg(s@);
        }
    }
    match parse_u32_digits(s) {
        Option::Some(v) => if v <= 255 {
            Option::Some(v as u8)
        } else {
            Option::None
        },
        Option::None => Option::None,
    }
}

} // verus!
