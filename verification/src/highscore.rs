//! The highscore rule: the store always holds the maximum score ever
//! seen. Reading tolerates a missing or malformed store by falling back
//! to zero; writing back happens only for a strictly greater score.
//!
//! The file itself lives with the caller; this module owns the
//! read-modify-write decision on plain values.

use vstd::prelude::*;
use crate::digits::{digits_value, parse_u32_digits, valid_u32_digits};

verus! {

/// The store after persisting `score` onto `stored`: the larger of the
/// two.
pub open spec fn spec_best(stored: u32, score: u32) -> u32 {
    if score > stored {
        score
    } else {
        stored
    }
}

/// The value a stored text denotes: its number when it is a well-formed
/// decimal, and 0 otherwise (a missing or unreadable store counts as no
/// score yet).
pub open spec fn spec_stored_value(s: Seq<char>) -> int {
    if valid_u32_digits(s) {
        digits_value(s)
    } else {
        0
    }
}

/// Read a stored highscore text, falling back to 0 when it is not a
/// well-formed decimal.
pub fn parse_highscore(s: &str) -> (r: u32)
    ensures
        r == spec_stored_value(s@),
{
    proof {
        if valid_u32_digits(s@) {
            crate::digits::lemma_digits_value_nonneg(s@);
        }
    }
    match parse_u32_digits(s) {
        Option::Some(v) => v,
        Option::None => 0,
    }
}

/// Decide the store's next value: the maximum of the stored score and the
/// session's score, together with whether a write-back is owed — exactly
/// when the new score is strictly greater.
pub fn save_highscore(stored: u32, score: u32) -> (r: (u32, bool))
    ensures
        r.0 == spec_best(stored, score),
        r.1 == (score > stored),
{
    if score > stored {
        (score, true)
    } else {
        (stored, false)
    }
}

/// The store keeps the maximum ever seen: persisting `s1` into a fresh
/// store and then a smaller `s2` leaves the store at `s1`, while a larger
/// `s2` replaces it; and over any prior store the result never drops.
pub proof fn lemma_highscore_round_trip(stored: u32, s1: u32, s2: u32)
    ensures
        s2 < s1 ==> spec_best(spec_best(0, s1), s2) == s1,
        s2 > s1 ==> spec_best(spec_best(0, s1), s2) == s2,
        spec_best(spec_best(stored, s1), s2) >= spec_best(stored, s1),
        spec_best(spec_best(stored, s1), s2) >= s1,
{
}

} // verus!
