//! Small verified text utilities shared by the parsers: character-level
//! string equality, and decimal parsing / formatting of `u64` values.

use vstd::prelude::*;
use vstd::string::StrSliceExecFns;
use vstd::string::StringExecFns;

verus! {

/// Compare two string slices character by character.
pub fn str_eq(a: &str, b: &str) -> (r: bool)
    ensures
        r == (a@ == b@),
{
    let a_len = a.unicode_len();
    let b_len = b.unicode_len();
    if a_len != b_len {
        return false;
    }
    let mut i: usize = 0;
    while i < a_len
        invariant
            a_len == a@.len(),
            b_len == b@.len(),
            a_len == b_len,
            i <= a_len,
            forall|j: int| 0 <= j < i ==> a@[j] == b@[j],
        decreases a_len - i,
    {
        if a.get_char(i) != b.get_char(i) {
            return false;
        }
        i += 1;
    }
    proof {
        assert(a@ =~= b@);
    }
    true
}

/// A decimal digit.
pub open spec fn char_is_digit(c: char) -> bool {
    '0' <= c && c <= '9'
}

/// The numeric value of a digit character.
pub open spec fn digit_val(c: char) -> int
    recommends
        char_is_digit(c),
{
    c as u32 - '0' as u32
}

/// Every character of `s` is a decimal digit.
pub open spec fn all_digits(s: Seq<char>) -> bool {
    forall|i: int| 0 <= i < s.len() ==> char_is_digit(s[i])
}

/// The integer denoted by a sequence of digit characters, most significant
/// digit first.
pub open spec fn digits_val(s: Seq<char>) -> int
    recommends
        all_digits(s),
    decreases s.len(),
{
    if s.len() == 0 {
        0
    } else {
        digits_val(s.drop_last()) * 10 + digit_val(s.last())
    }
}

proof fn lemma_digits_val_nonneg(s: Seq<char>)
    requires
        all_digits(s),
    ensures
        digits_val(s) >= 0,
    decreases s.len(),
{
    if s.len() > 0 {
        assert(all_digits(s.drop_last()));
        lemma_digits_val_nonneg(s.drop_last());
    }
}

/// A digit string denotes at least as much as any of its prefixes.
proof fn lemma_digits_val_prefix_le(s: Seq<char>, k: int)
    requires
        all_digits(s),
        0 <= k <= s.len(),
    ensures
        digits_val(s.take(k)) <= digits_val(s),
    decreases s.len(),
{
    if k < s.len() {
        assert(all_digits(s.drop_last()));
        assert(s.drop_last().take(k) =~= s.take(k));
        lemma_digits_val_prefix_le(s.drop_last(), k);
        lemma_digits_val_nonneg(s.drop_last());
        assert(char_is_digit(s.last()));
        assert(digits_val(s) >= digits_val(s.drop_last()));
    } else {
        assert(s.take(k) =~= s);
    }
}

/// What `str::parse::<u64>` accepts: an optional leading `'+'`, then one or
/// more decimal digits, denoting a value that fits in a `u64`.
pub open spec fn spec_parse_u64(s: Seq<char>) -> Option<u64> {
    let body = if s.len() > 0 && s[0] == '+' {
        s.drop_first()
    } else {
        s
    };
    if body.len() > 0 && all_digits(body) && digits_val(body) <= u64::MAX {
        Some(digits_val(body) as u64)
    } else {
        None
    }
}

/// Parse a decimal `u64`, accepting exactly what `str::parse::<u64>` accepts:
/// an optional leading `'+'` followed by one or more digits, rejecting
/// anything else and values that overflow.
pub fn parse_u64(s: &str) -> (r: Option<u64>)
    ensures
        r == spec_parse_u64(s@),
{
    let n = s.unicode_len();
    let start: usize = if n > 0 && s.get_char(0) == '+' {
        1
    } else {
        0
    };
    let ghost body: Seq<char> = if s@.len() > 0 && s@[0] == '+' {
        s@.drop_first()
    } else {
        s@
    };
    proof {
        assert(body.len() == n - start);
        assert(forall|j: int| 0 <= j < body.len() ==> body[j] == s@[j + start]);
    }
    if n == start {
        return None;
    }
    let mut acc: u64 = 0;
    let mut i: usize = start;
    while i < n
        invariant
            n == s@.len(),
            start <= i <= n,
            start <= 1,
            body == (if s@.len() > 0 && s@[0] == '+' {
                s@.drop_first()
            } else {
                s@
            }),
            start == (if s@.len() > 0 && s@[0] == '+' {
                1int
            } else {
                0int
            }),
            body.len() == n - start,
            forall|j: int| 0 <= j < body.len() ==> body[j] == s@[j + start],
            forall|j: int| 0 <= j < i - start ==> char_is_digit(body[j]),
            acc == digits_val(body.take(i - start)),
        decreases n - i,
    {
        let c = s.get_char(i);
        let ghost k: int = i - start;
        proof {
            assert(body[k] == c);
            assert(body.take(k + 1).drop_last() =~= body.take(k));
            assert(body.take(k + 1).last() == c);
        }
        if !('0' <= c && c <= '9') {
            assert(!all_digits(body));
            return None;
        }
        let d: u64 = (c as u32 - '0' as u32) as u64;
        assert(0 <= d <= 9);
        assert(d == digit_val(c));
        if acc > (u64::MAX - d) / 10 {
            proof {
                assert(digits_val(body.take(k + 1)) == acc * 10 + d);
                assert(acc * 10 + d > u64::MAX) by (nonlinear_arith)
                    requires
                        acc > (u64::MAX - d) / 10,
                        d <= 9,
                        acc >= 0,
                ;
                if all_digits(body) {
                    lemma_digits_val_prefix_le(body, k + 1);
                    assert(digits_val(body) > u64::MAX);
                }
            }
            return None;
        }
        proof {
            assert(acc * 10 + d <= u64::MAX) by (nonlinear_arith)
                requires
                    acc <= (u64::MAX - d) / 10,
                    d <= 9,
                    acc >= 0,
            ;
            assert(digits_val(body.take(k + 1)) == acc * 10 + d);
        }
        acc = acc * 10 + d;
        i += 1;
    }
    proof {
        assert(body.take(n - start) =~= body);
        assert(all_digits(body));
    }
    Some(acc)
}

/// The digit character for a value between 0 and 9.
pub open spec fn spec_digit_char(d: int) -> char
    recommends
        0 <= d <= 9,
{
    if d == 0 {
        '0'
    } else if d == 1 {
        '1'
    } else if d == 2 {
        '2'
    } else if d == 3 {
        '3'
    } else if d == 4 {
        '4'
    } else if d == 5 {
        '5'
    } else if d == 6 {
        '6'
    } else if d == 7 {
        '7'
    } else if d == 8 {
        '8'
    } else {
        '9'
    }
}

/// The decimal digit string of a nonnegative integer, without sign or
/// leading zeros (a single `'0'` for zero).
pub open spec fn spec_u64_digits(n: int) -> Seq<char>
    recommends
        n >= 0,
    decreases n,
{
    if n < 10 {
        seq![spec_digit_char(n)]
    } else {
        spec_u64_digits(n / 10).push(spec_digit_char(n % 10))
    }
}

fn digit_str(d: u64) -> (r: &'static str)
    requires
        d <= 9,
    ensures
        r@ =~= seq![spec_digit_char(d as int)],
{
    if d == 0 {
        proof {
            reveal_strlit("0");
        }
        "0"
    } else if d == 1 {
        proof {
            reveal_strlit("1");
        }
        "1"
    } else if d == 2 {
        proof {
            reveal_strlit("2");
        }
        "2"
    } else if d == 3 {
        proof {
            reveal_strlit("3");
        }
        "3"
    } else if d == 4 {
        proof {
            reveal_strlit("4");
        }
        "4"
    } else if d == 5 {
        proof {
            reveal_strlit("5");
        }
        "5"
    } else if d == 6 {
        proof {
            reveal_strlit("6");
        }
        "6"
    } else if d == 7 {
        proof {
            reveal_strlit("7");
        }
        "7"
    } else if d == 8 {
        proof {
            reveal_strlit("8");
        }
        "8"
    } else {
        proof {
            reveal_strlit("9");
        }
        "9"
    }
}

/// Format a `u64` as its decimal digit string.
pub fn fmt_u64(n: u64) -> (r: String)
    ensures
        r@ == spec_u64_digits(n as int),
    decreases n,
{
    if n < 10 {
        let r = String::from_str(digit_str(n));
        proof {
            assert(r@ =~= spec_u64_digits(n as int));
        }
        r
    } else {
        let mut r = fmt_u64(n / 10);
        r.append(digit_str(n % 10));
        proof {
            assert(r@ =~= spec_u64_digits(n as int));
        }
        r
    }
}

} // verus!
