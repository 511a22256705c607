//! The size parser: converts a human-readable size string such as `"12 MB"`
//! or `"512 kB"` into an approximate byte count.
//!
//! Both units are decimal (SI) multiples, and the displayed value is already
//! rounded, so the result is an approximation by design. Malformed input —
//! no separating space, a non-numeric value, an unrecognized unit — yields
//! `None` rather than an error.

use vstd::prelude::*;
use vstd::string::StrSliceExecFns;
use crate::text::parse_u64;
use crate::text::spec_parse_u64;
use crate::text::str_eq;

verus! {

/// The index of the first space in `s`, if any.
pub open spec fn spec_first_space(s: Seq<char>) -> Option<int>
    decreases s.len(),
{
    if s.len() == 0 {
        None
    } else if s[0] == ' ' {
        Some(0)
    } else {
        match spec_first_space(s.drop_first()) {
            None => None,
            Some(i) => Some(i + 1),
        }
    }
}

proof fn lemma_first_space_at(s: Seq<char>, i: int)
    requires
        0 <= i < s.len(),
        s[i] == ' ',
        forall|j: int| 0 <= j < i ==> s[j] != ' ',
    ensures
        spec_first_space(s) == Some(i),
    decreases i,
{
    if i > 0 {
        lemma_first_space_at(s.drop_first(), i - 1);
    }
}

proof fn lemma_first_space_none(s: Seq<char>)
    requires
        forall|j: int| 0 <= j < s.len() ==> s[j] != ' ',
    ensures
        spec_first_space(s) is None,
    decreases s.len(),
{
    if s.len() > 0 {
        lemma_first_space_none(s.drop_first());
    }
}

/// The byte count a size string denotes: the text before the first space read
/// as a decimal value, scaled by `1_000_000` for `"MB"` or `1_000` for
/// `"kB"`; `None` on any malformed input, and on a product that does not fit
/// in a `u64`.
pub open spec fn spec_parse_size(s: Seq<char>) -> Option<u64> {
    match spec_first_space(s) {
        None => None,
        Some(i) => {
            let value_text = s.take(i);
            let unit = s.skip(i + 1);
            match spec_parse_u64(value_text) {
                None => None,
                Some(v) => {
                    let scale: int = if unit == "MB"@ {
                        1_000_000
                    } else if unit == "kB"@ {
                        1_000
                    } else {
                        0
                    };
                    if scale == 0 {
                        None
                    } else if v * scale <= u64::MAX {
                        Some((v * scale) as u64)
                    } else {
                        None
                    }
                },
            }
        },
    }
}

/// Parse a size string of the form `"<integer> <unit>"` with unit `"MB"` or
/// `"kB"` into bytes. The result is an approximate, decimal-scaled count;
/// any malformed input yields `None`.
pub fn parse_size_text(s: &str) -> (r: Option<u64>)
    ensures
        r == spec_parse_size(s@),
{
    let n = s.unicode_len();
    let mut i: usize = 0;
    while i < n
        invariant
            n == s@.len(),
            0 <= i <= n,
            forall|j: int| 0 <= j < i ==> s@[j] != ' ',
        decreases n - i,
    {
        if s.get_char(i) == ' ' {
            proof {
                lemma_first_space_at(s@, i as int);
            }
            let value_text = s.substring_char(0, i);
            let unit = s.substring_char(i + 1, n);
            proof {
                assert(value_text@ =~= s@.take(i as int));
                assert(unit@ =~= s@.skip(i + 1));
            }
            let v = match parse_u64(value_text) {
                Some(v) => v,
                None => {
                    return None;
                },
            };
            let scale: u64 = if str_eq(unit, "MB") {
                1_000_000
            } else if str_eq(unit, "kB") {
                1_000
            } else {
                return None;
            };
            if v <= u64::MAX / scale {
                proof {
                    assert(v * scale <= u64::MAX) by (nonlinear_arith)
                        requires
                            v <= u64::MAX / scale,
                            scale == 1_000_000 || scale == 1_000,
                    ;
                }
                return Some(v * scale);
            } else {
                proof {
                    assert(v * scale > u64::MAX) by (nonlinear_arith)
                        requires
                            v > u64::MAX / scale,
                            scale == 1_000_000 || scale == 1_000,
                    ;
                }
                return None;
            }
        }
        i += 1;
    }
    proof {
        lemma_first_space_none(s@);
    }
    None
}

} // verus!
