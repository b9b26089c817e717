//! Matching the numeric id segment of the item routes. A path segment
//! matches only when it is one or more decimal digits whose value fits
//! a signed 64-bit id; anything else falls through to no route at all,
//! which is distinct from a well-formed id that names no stored item.

use vstd::prelude::*;

verus! {

/// A decimal digit character.
pub open spec fn is_digit(c: char) -> bool {
    '0' <= c && c <= '9'
}

/// A non-empty sequence made of decimal digits only: the shape the id
/// segment of a route must have to match at all.
pub open spec fn is_digit_seq(s: Seq<char>) -> bool {
    &&& s.len() > 0
    &&& forall|i: int| 0 <= i < s.len() ==> is_digit(#[trigger] s[i])
}

/// The numeric value of a digit character.
pub open spec fn digit_val(c: char) -> int {
    c as int - 48
}

/// The value of a digit sequence read as a decimal number; leading
/// zeros are allowed and do not change the value.
pub open spec fn digits_val(s: Seq<char>) -> int
    decreases s.len(),
{
    if s.len() == 0 {
        0
    } else {
        digits_val(s.drop_last()) * 10 + digit_val(s.last())
    }
}

proof fn lemma_digits_val_nonneg(s: Seq<char>)
    requires
        forall|i: int| 0 <= i < s.len() ==> is_digit(#[trigger] s[i]),
    ensures
        digits_val(s) >= 0,
    decreases s.len(),
{
    if s.len() > 0 {
        lemma_digits_val_nonneg(s.drop_last());
    }
}

/// Reading more digits never shrinks the value: the value of a prefix
/// bounds the value of the whole sequence from below.
proof fn lemma_digits_prefix_le(s: Seq<char>, j: int)
    requires
        forall|i: int| 0 <= i < s.len() ==> is_digit(#[trigger] s[i]),
        0 <= j <= s.len(),
    ensures
        digits_val(s.take(j)) <= digits_val(s),
    decreases s.len() - j,
{
    if j == s.len() {
        assert(s.take(j) =~= s);
    } else {
        assert(s.take(j + 1).drop_last() =~= s.take(j));
        assert(s.take(j + 1).last() == s[j]);
        lemma_digits_val_nonneg(s.take(j));
        assert(digits_val(s.take(j + 1)) == digits_val(s.take(j)) * 10 + digit_val(s[j]));
        lemma_digits_prefix_le(s, j + 1);
    }
}

/// Decide whether a path segment matches the numeric id pattern, and
/// parse it when it does. `Some(v)` exactly when the segment is a
/// non-empty run of decimal digits whose value fits an `i64`; a
/// segment with any other character, an empty segment, or a run whose
/// value overflows the id type does not match the route.
pub fn parse_id_segment(s: &str) -> (r: Option<i64>)
    ensures
        match r {
            Some(v) => is_digit_seq(s@) && digits_val(s@) <= i64::MAX && v as int == digits_val(
                s@,
            ),
            None => !is_digit_seq(s@) || digits_val(s@) > i64::MAX,
        },
{
    let n = s.unicode_len();
    if n == 0 {
        return None;
    }
    let mut i: usize = 0;
    let mut acc: u64 = 0;
    while i < n
        invariant
            0 < n,
            n as nat == s@.len(),
            0 <= i <= n,
            forall|k: int| 0 <= k < i ==> is_digit(#[trigger] s@[k]),
            acc as int == digits_val(s@.take(i as int)),
            acc <= i64::MAX as u64,
        decreases n - i,
    {
        let c = s.get_char(i);
        if c < '0' || c > '9' {
            return None;
        }
        let d: u64 = ((c as u32) - 48) as u64;
        proof {
            assert(s@.take(i + 1).drop_last() =~= s@.take(i as int));
            assert(s@.take(i + 1).last() == s@[i as int]);
        }
        let next = match acc.checked_mul(10) {
            Some(x) => x.checked_add(d),
            None => None,
        };
        match next {
            Some(x) => {
                if x > i64::MAX as u64 {
                    proof {
                        if is_digit_seq(s@) {
                            lemma_digits_prefix_le(s@, i + 1);
                        }
                    }
                    return None;
                }
                acc = x;
            },
            None => {
                proof {
                    if is_digit_seq(s@) {
                        lemma_digits_prefix_le(s@, i + 1);
                    }
                }
                return None;
            },
        }
        i = i + 1;
    }
    proof {
        assert(s@.take(n as int) =~= s@);
    }
    Some(acc as i64)
}

} // verus!
