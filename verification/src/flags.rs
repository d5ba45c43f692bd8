//! Command-line flag interpretation: `--highscore` asks for the stored
//! best score instead of a game, and `--spacing <n>` overrides the open
//! stretch between obstacles. The caller collects the raw arguments; this
//! module owns what they mean.

use vstd::prelude::*;
use vstd::string::StringExecFns;
use crate::digits::{digits_value, parse_u8_digits, valid_u32_digits};

verus! {

/// What the command line asked for: the highscore display, and the
/// spacing override — present, absent, or malformed (`spacing_err` is set
/// when `--spacing` stands without a following well-formed value, a
/// configuration error the caller reports).
#[derive(Clone, Copy, PartialEq, Eq, Structural, Debug)]
pub struct Flags {
    pub show_highscore: bool,
    pub spacing: Option<u8>,
    pub spacing_err: bool,
}

/// The first index at or after `i` whose argument equals `f`.
pub open spec fn spec_find_flag(args: Seq<String>, f: Seq<char>, i: int) -> Option<int>
    decreases args.len() - i,
{
    if i < 0 || i >= args.len() {
        Option::None
    } else if args[i]@ == f {
        Option::Some(i)
    } else {
        spec_find_flag(args, f, i + 1)
    }
}

/// A string that denotes a spacing value: a decimal that fits a `u8`.
pub open spec fn valid_spacing(s: Seq<char>) -> bool {
    valid_u32_digits(s) && digits_value(s) <= u8::MAX
}

/// Scan the arguments once. `show_highscore` reports whether
/// `--highscore` occurs anywhere; the first `--spacing` decides the
/// override: the argument after it must be a decimal that fits a `u8`,
/// else the flags carry the configuration error instead.
pub fn parse_flags(args: &Vec<String>) -> (r: Flags)
    ensures
        r.show_highscore == (spec_find_flag(args@, "--highscore"@, 0) is Some),
        ({
            let sp = spec_find_flag(args@, "--spacing"@, 0);
            match sp {
                Option::None => r.spacing is None && !r.spacing_err,
                Option::Some(i) => {
                    if i + 1 < args@.len() && valid_spacing(args@[i + 1]@) {
                        r.spacing == Option::Some(digits_value(args@[i + 1]@) as u8)
                            && !r.spacing_err
                    } else {
                        r.spacing is None && r.spacing_err
                    }
                },
            }
        }),
{
    let hs_flag: String = String::from_str("--highscore");
    let sp_flag: String = String::from_str("--spacing");
    let n = args.len();
    let mut i: usize = 0;
    let mut show: bool = false;
    let mut sp_idx: Option<usize> = Option::None;
    while i < n
        invariant
            n == args@.len(),
            i <= n,
            hs_flag@ == "--highscore"@,
            sp_flag@ == "--spacing"@,
            !show ==> spec_find_flag(args@, "--highscore"@, 0) == spec_find_flag(
                args@,
                "--highscore"@,
                i as int,
            ),
            show ==> spec_find_flag(args@, "--highscore"@, 0) is Some,
            sp_idx is None ==> spec_find_flag(args@, "--spacing"@, 0) == spec_find_flag(
                args@,
                "--spacing"@,
                i as int,
            ),
            match sp_idx {
                Option::Some(k) => k < n && spec_find_flag(args@, "--spacing"@, 0)
                    == Option::Some(k as int),
                Option::None => true,
            },
        decreases n - i,
    {
        if args[i] == hs_flag {
            show = true;
        }
        if sp_idx.is_none() && args[i] == sp_flag {
            sp_idx = Option::Some(i);
        }
        i = i + 1;
    }
    match sp_idx {
        Option::None => Flags { show_highscore: show, spacing: Option::None, spacing_err: false },
        Option::Some(k) => {
            if k + 1 < n {
                match parse_u8_digits(args[k + 1].as_str()) {
                    Option::Some(v) => Flags {
                        show_highscore: show,
                        spacing: Option::Some(v),
                        spacing_err: false,
                    },
                    Option::None => Flags {
                        show_highscore: show,
                        spacing: Option::None,
                        spacing_err: true,
                    },
                }
            } else {
                Flags { show_highscore: show, spacing: Option::None, spacing_err: true }
            }
        },
    }
}

} // verus!
