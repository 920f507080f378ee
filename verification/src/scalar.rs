//! Parsing of the scalar configuration fields: unsigned and signed integers
//! and booleans, with the exact acceptance rules of Rust's standard string
//! parsing (an optional sign, then one or more ASCII digits; `true`/`false`
//! for booleans; anything else is rejected).

use vstd::prelude::*;

verus! {

/// An ASCII decimal digit.
pub open spec fn is_digit(c: char) -> bool {
    48 <= c as u32 <= 57
}

/// The numeric value of an ASCII decimal digit.
pub open spec fn digit_val(c: char) -> int {
    c as u32 - 48
}

/// Every character of `s` is an ASCII decimal digit.
pub open spec fn all_digits(s: Seq<char>) -> bool {
    forall|i: int| 0 <= i < s.len() ==> is_digit(s[i])
}

/// The value of a digit string read in base ten.
pub open spec fn digits_val(s: Seq<char>) -> int
    decreases s.len(),
{
    if s.len() == 0 {
        0
    } else {
        10 * digits_val(s.drop_last()) + digit_val(s.last())
    }
}

/// What parsing `s` as an unsigned integer yields: an optional leading `+`,
/// then at least one digit; no bound on the value.
pub open spec fn spec_parse_unsigned(s: Seq<char>) -> Option<int> {
    let t = if s.len() > 0 && s[0] == '+' {
        s.skip(1)
    } else {
        s
    };
    if t.len() > 0 && all_digits(t) {
        Option::Some(digits_val(t))
    } else {
        Option::None
    }
}

/// What parsing `s` as a `u16` yields.
pub open spec fn spec_parse_u16(s: Seq<char>) -> Option<u16> {
    match spec_parse_unsigned(s) {
        Option::Some(v) => if v <= 65535 {
            Option::Some(v as u16)
        } else {
            Option::None
        },
        Option::None => Option::None,
    }
}

/// What parsing `s` as an `i32` yields: an optional sign, then at least one
/// digit, and the value must fit.
pub open spec fn spec_parse_i32(s: Seq<char>) -> Option<i32> {
    let neg = s.len() > 0 && s[0] == '-';
    let t = if s.len() > 0 && (s[0] == '+' || s[0] == '-') {
        s.skip(1)
    } else {
        s
    };
    if t.len() > 0 && all_digits(t) {
        let v = if neg {
            -digits_val(t)
        } else {
            digits_val(t)
        };
        if -2147483648 <= v <= 2147483647 {
            Option::Some(v as i32)
        } else {
            Option::None
        }
    } else {
        Option::None
    }
}

/// What parsing `s` as a boolean yields: exactly `true` or `false`.
pub open spec fn spec_parse_bool(s: Seq<char>) -> Option<bool> {
    if s == "true"@ {
        Option::Some(true)
    } else if s == "false"@ {
        Option::Some(false)
    } else {
        Option::None
    }
}

/// A digit string never reads as a negative value.
pub proof fn lemma_digits_val_nonneg(s: Seq<char>)
    requires
        all_digits(s),
    ensures
        digits_val(s) >= 0,
    decreases s.len(),
{
    if s.len() > 0 {
        assert(all_digits(s.drop_last()));
        lemma_digits_val_nonneg(s.drop_last());
    }
}

/// Reading a prefix of a digit string never yields more than the whole.
pub proof fn lemma_digits_val_prefix(s: Seq<char>, k: int)
    requires
        all_digits(s),
        0 <= k <= s.len(),
    ensures
        digits_val(s.subrange(0, k)) <= digits_val(s),
    decreases s.len(),
{
    if k == s.len() {
        assert(s.subrange(0, k) =~= s);
    } else {
        let t = s.drop_last();
        assert(all_digits(t));
        lemma_digits_val_prefix(t, k);
        assert(t.subrange(0, k) =~= s.subrange(0, k));
        lemma_digits_val_nonneg(t);
    }
}

/// Parses an unsigned 16-bit integer exactly as the standard library does.
pub fn parse_u16(s: &str) -> (r: Option<u16>)
    ensures
        r == spec_parse_u16(s@),
{
    let n = s.unicode_len();
    let start: usize = if n > 0 && s.get_char(0) == '+' {
        1
    } else {
        0
    };
    let ghost t = if s@.len() > 0 && s@[0] == '+' {
        s@.skip(1)
    } else {
        s@
    };
    proof {
        assert(t =~= s@.subrange(start as int, n as int));
    }
    if start >= n {
        return Option::None;
    }
    let mut acc: u32 = 0;
    let mut j: usize = start;
    while j < n
        invariant
            start < n,
            start <= j <= n,
            n == s@.len(),
            t == (if s@.len() > 0 && s@[0] == '+' {
                s@.skip(1)
            } else {
                s@
            }),
            t == s@.subrange(start as int, n as int),
            all_digits(s@.subrange(start as int, j as int)),
            acc == digits_val(s@.subrange(start as int, j as int)),
            acc <= 65535,
        decreases n - j,
    {
        let c = s.get_char(j);
        let d = c as u32;
        if d < 48 || 57 < d {
            proof {
                assert(t[j as int - start as int] == s@[j as int]);
                assert(!all_digits(t));
            }
            return Option::None;
        }
        let acc2 = acc * 10 + (d - 48);
        proof {
            let u = s@.subrange(start as int, j as int + 1);
            assert(u.drop_last() =~= s@.subrange(start as int, j as int));
            assert(u.last() == s@[j as int]);
        }
        if acc2 > 65535 {
            proof {
                if all_digits(t) {
                    assert(t.subrange(0, j as int + 1 - start as int) =~= s@.subrange(start as int, j as int + 1));
                    lemma_digits_val_prefix(t, j as int + 1 - start as int);
                }
            }
            return Option::None;
        }
        acc = acc2;
        j = j + 1;
    }
    proof {
        assert(s@.subrange(start as int, n as int) =~= t);
    }
    Option::Some(acc as u16)
}

/// Parses a signed 32-bit integer exactly as the standard library does.
pub fn parse_i32(s: &str) -> (r: Option<i32>)
    ensures
        r == spec_parse_i32(s@),
{
    let n = s.unicode_len();
    let mut neg = false;
    let mut start: usize = 0;
    if n > 0 {
        let c0 = s.get_char(0);
        if c0 == '+' {
            start = 1;
        }
        if c0 == '-' {
            start = 1;
            neg = true;
        }
    }
    let ghost t = if s@.len() > 0 && (s@[0] == '+' || s@[0] == '-') {
        s@.skip(1)
    } else {
        s@
    };
    proof {
        assert(t =~= s@.subrange(start as int, n as int));
    }
    if start >= n {
        return Option::None;
    }
    let mut acc: u64 = 0;
    let mut j: usize = start;
    while j < n
        invariant
            start < n,
            start <= j <= n,
            n == s@.len(),
            neg == (s@.len() > 0 && s@[0] == '-'),
            t == (if s@.len() > 0 && (s@[0] == '+' || s@[0] == '-') {
                s@.skip(1)
            } else {
                s@
            }),
            t == s@.subrange(start as int, n as int),
            all_digits(s@.subrange(start as int, j as int)),
            acc == digits_val(s@.subrange(start as int, j as int)),
            acc <= 2147483648,
        decreases n - j,
    {
        let c = s.get_char(j);
        let d = c as u32;
        if d < 48 || 57 < d {
            proof {
                assert(t[j as int - start as int] == s@[j as int]);
                assert(!all_digits(t));
            }
            return Option::None;
        }
        let acc2 = acc * 10 + ((d - 48) as u64);
        proof {
            let u = s@.subrange(start as int, j as int + 1);
            assert(u.drop_last() =~= s@.subrange(start as int, j as int));
            assert(u.last() == s@[j as int]);
        }
        if acc2 > 2147483648 {
            proof {
                if all_digits(t) {
                    assert(t.subrange(0, j as int + 1 - start as int) =~= s@.subrange(
                        start as int,
                        j as int + 1,
                    ));
                    lemma_digits_val_prefix(t, j as int + 1 - start as int);
                }
            }
            return Option::None;
        }
        acc = acc2;
        j = j + 1;
    }
    proof {
        assert(s@.subrange(start as int, n as int) =~= t);
    }
    if neg {
        if acc == 2147483648 {
            Option::Some(i32::MIN)
        } else {
            Option::Some(-(acc as i32))
        }
    } else {
        if acc > 2147483647 {
            Option::None
        } else {
            Option::Some(acc as i32)
        }
    }
}

/// Parses a boolean exactly as the standard library does: only the exact
/// words `true` and `false` are accepted.
pub fn parse_bool(s: &str) -> (r: Option<bool>)
    ensures
        r == spec_parse_bool(s@),
{
    let owned = s.to_owned();
    if owned == String::from_str("true") {
        Option::Some(true)
    } else if owned == String::from_str("false") {
        Option::Some(false)
    } else {
        Option::None
    }
}

} // verus!
