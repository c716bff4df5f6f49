//! Reading a status code typed by the user as an `i32`, as std's
//! `str::parse::<i32>` does: an optional sign, then one or more decimal
//! digits, the value within the range of `i32`.

use vstd::prelude::*;
use crate::text::chars_of;

verus! {

/// Whether `c` is a decimal digit.
pub open spec fn is_digit(c: char) -> bool {
    '0' <= c && c <= '9'
}

/// The value of the decimal digits `s`.
pub open spec fn digits_value(s: Seq<char>) -> int
    decreases s.len(),
{
    if s.len() == 0 {
        0
    } else {
        digits_value(s.drop_last()) * 10 + (s.last() as int - '0' as int)
    }
}

/// Whether every character of `s` is a decimal digit.
pub open spec fn all_digits(s: Seq<char>) -> bool {
    forall|i: int| 0 <= i < s.len() ==> is_digit(#[trigger] s[i])
}

/// The integer that `s` writes: an optional `+` or `-`, then one or more
/// decimal digits; nothing for any other text.
pub open spec fn integer_text(s: Seq<char>) -> Option<int> {
    if s.len() > 0 && (s[0] == '-' || s[0] == '+') {
        let body = s.drop_first();
        if body.len() > 0 && all_digits(body) {
            Some(if s[0] == '-' { -digits_value(body) } else { digits_value(body) })
        } else {
            None
        }
    } else if s.len() > 0 && all_digits(s) {
        Some(digits_value(s))
    } else {
        None
    }
}

/// What `str::parse::<i32>` gives for `s`: the integer it writes, when that
/// is within the range of `i32`.
pub open spec fn i32_text(s: Seq<char>) -> Option<i32> {
    match integer_text(s) {
        Some(v) => if i32::MIN <= v <= i32::MAX {
            Some(v as i32)
        } else {
            None
        },
        None => None,
    }
}

/// The value of digits is never negative.
proof fn lemma_digits_nonneg(s: Seq<char>)
    requires
        all_digits(s),
    ensures
        0 <= digits_value(s),
    decreases s.len(),
{
    if s.len() > 0 {
        assert(all_digits(s.drop_last())) by {
            assert forall|i: int| 0 <= i < s.drop_last().len() implies is_digit(
                #[trigger] s.drop_last()[i],
            ) by {
                assert(s.drop_last()[i] == s[i]);
            }
        }
        lemma_digits_nonneg(s.drop_last());
        assert(is_digit(s[s.len() - 1]));
    }
}

/// Reads the decimal digits `v[from..]`: their value when it is at most
/// 2^31, else `None`. It also says whether they are all digits.
fn read_digits(v: &Vec<char>, from: usize) -> (r: (bool, Option<i64>))
    requires
        from <= v@.len(),
    ensures
        r.0 == all_digits(v@.skip(from as int)),
        r.0 ==> match r.1 {
            Some(x) => x == digits_value(v@.skip(from as int)) && x <= 0x8000_0000,
            None => digits_value(v@.skip(from as int)) > 0x8000_0000,
        },
{
    let ghost body = v@.skip(from as int);
    let mut acc: i64 = 0;
    let mut big = false;
    let mut i: usize = from;
    while i < v.len()
        invariant
            from <= i <= v@.len(),
            body == v@.skip(from as int),
            all_digits(body.take(i - from)),
            !big ==> acc == digits_value(body.take(i - from)) && 0 <= acc <= 0x8000_0000,
            big ==> digits_value(body.take(i - from)) > 0x8000_0000,
        decreases v@.len() - i,
    {
        let c = v[i];
        let ghost k: int = i - from;
        assert(body[k] == c);
        assert(body.take(k + 1).drop_last() =~= body.take(k));
        if !('0' <= c && c <= '9') {
            assert(!all_digits(body)) by {
                assert(!is_digit(body[k]));
            }
            return (false, None);
        }
        assert(all_digits(body.take(k + 1))) by {
            assert forall|j: int| 0 <= j < k + 1 implies is_digit(#[trigger] body.take(k + 1)[j]) by {
                if j < k {
                    assert(body.take(k + 1)[j] == body.take(k)[j]);
                }
            }
        }
        let d = (c as u32 - '0' as u32) as i64;
        if !big {
            let next = acc * 10 + d;
            if next > 0x8000_0000 {
                big = true;
            } else {
                acc = next;
            }
        } else {
            proof {
                lemma_digits_nonneg(body.take(k));
            }
        }
        i = i + 1;
    }
    assert(body.take(v@.len() - from) =~= body);
    if big {
        (true, None)
    } else {
        (true, Some(acc))
    }
}

/// `str::parse::<i32>` on `s`: the integer it writes, when that is within
/// the range of `i32`; `None` for any other text.
pub fn parse_i32(s: &str) -> (r: Option<i32>)
    ensures
        r == i32_text(s@),
{
    let v = chars_of(s);
    if v.len() == 0 {
        return None;
    }
    let signed = v[0] == '-' || v[0] == '+';
    let from: usize = if signed { 1 } else { 0 };
    if from == v.len() {
        return None;
    }
    let (digits, value) = read_digits(&v, from);
    let ghost body = v@.skip(from as int);
    if signed {
        assert(body =~= s@.drop_first());
    } else {
        assert(body =~= s@);
    }
    if !digits {
        return None;
    }
    proof {
        lemma_digits_nonneg(body);
    }
    match value {
        None => None,
        Some(x) => {
            if v[0] == '-' {
                Some((-x) as i32)
            } else if x <= 0x7fff_ffff {
                Some(x as i32)
            } else {
                None
            }
        },
    }
}

} // verus!
