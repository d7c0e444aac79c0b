//! The caller-identity header: an `i32` user id carried as decimal text.
//! Decoding accepts exactly what `i32` parsing accepts — an optional sign
//! followed by one or more digits, within range — and encoding renders the
//! canonical decimal form.

use vstd::prelude::*;
use vstd::string::StrSliceExecFns;

use crate::domain::XUserId;
use crate::filesystem::{i32_string, int_string};

verus! {

pub open spec fn is_dec_digit_char(c: char) -> bool {
    48 <= c as u32 <= 57
}

pub open spec fn all_dec_digits(s: Seq<char>) -> bool {
    forall|i: int| 0 <= i < s.len() ==> is_dec_digit_char(#[trigger] s[i])
}

/// The non-negative value of a pure digit string.
pub open spec fn numeral_value(s: Seq<char>) -> int
    decreases s.len(),
{
    if s.len() == 0 {
        0
    } else {
        numeral_value(s.drop_last()) * 10 + (s.last() as u32 - 48)
    }
}

/// What decimal decoding accepts, and the value it reads: an optional sign,
/// then at least one digit, and the signed value must fit the id type.
pub open spec fn decoded_user_id(s: Seq<char>) -> Option<int> {
    let negative = s.len() >= 1 && s[0] == '-';
    let signed = s.len() >= 1 && (s[0] == '-' || s[0] == '+');
    let digits = if signed {
        s.drop_first()
    } else {
        s
    };
    if digits.len() >= 1 && all_dec_digits(digits) {
        let v = if negative {
            -numeral_value(digits)
        } else {
            numeral_value(digits)
        };
        if i32::MIN <= v <= i32::MAX {
            Some(v)
        } else {
            None
        }
    } else {
        None
    }
}

proof fn lemma_numeral_value_nonneg(s: Seq<char>)
    requires
        all_dec_digits(s),
    ensures
        numeral_value(s) >= 0,
    decreases s.len(),
{
    if s.len() > 0 {
        assert(all_dec_digits(s.drop_last())) by {
            assert(forall|i: int| 0 <= i < s.len() - 1 ==> s.drop_last()[i] == #[trigger] s[i]);
        }
        lemma_numeral_value_nonneg(s.drop_last());
    }
}

impl XUserId {
    /// The header that carries the caller identity.
    pub fn name() -> (r: &'static str)
        ensures
            r@ == "x-user-id"@,
    {
        "x-user-id"
    }

    /// Reads a caller id from the header's text.
    pub fn decode(value: &str) -> (r: Option<XUserId>)
        ensures
            match decoded_user_id(value@) {
                Some(v) => r matches Some(u) && u.0 as int == v,
                None => r is None,
            },
    {
        let n = value.unicode_len();
        if n == 0 {
            return None;
        }
        let first = value.get_char(0);
        let negative = first == '-';
        let start: usize = if first == '-' || first == '+' {
            1
        } else {
            0
        };
        if n == start {
            return None;
        }
        let ghost digits = if start == 1 {
            value@.drop_first()
        } else {
            value@
        };
        // Accumulate, clamping one past the id range so overflow is kept
        // visible without growing without bound.
        let clamp: i64 = 0x8000_0001;
        let mut acc: i64 = 0;
        let mut i: usize = start;
        proof {
            assert(digits.subrange(0, 0) =~= Seq::<char>::empty());
        }
        while i < n
            invariant
                start <= i <= n,
                start == 0 || start == 1,
                n == value@.len(),
                n >= 1,
                n > start,
                (start == 1) == (value@[0] == '-' || value@[0] == '+'),
                negative == (value@[0] == '-'),
                digits == (if start == 1 {
                    value@.drop_first()
                } else {
                    value@
                }),
                clamp == 0x8000_0001,
                all_dec_digits(digits.subrange(0, i - start)),
                0 <= acc <= clamp,
                acc == (if numeral_value(digits.subrange(0, i - start)) > clamp {
                    clamp as int
                } else {
                    numeral_value(digits.subrange(0, i - start))
                }),
            decreases n - i,
        {
            let c = value.get_char(i);
            let d = c as u32;
            if d < 48 || d > 57 {
                proof {
                    assert(digits[i - start] == value@[i as int]);
                    assert(!all_dec_digits(digits));
                }
                return None;
            }
            proof {
                let prefix = digits.subrange(0, i - start);
                let nextp = digits.subrange(0, i + 1 - start);
                assert(nextp.drop_last() =~= prefix);
                assert(nextp.last() == value@[i as int]);
                lemma_numeral_value_nonneg(nextp);
            }
            acc = {
                let grown: i64 = acc * 10 + (d - 48) as i64;
                if grown > clamp {
                    clamp
                } else {
                    grown
                }
            };
            i += 1;
        }
        proof {
            assert(digits.subrange(0, n - start) =~= digits);
            lemma_numeral_value_nonneg(digits);
        }
        if negative {
            if acc > 0x8000_0000 {
                return None;
            }
            Some(XUserId((-acc) as i32))
        } else {
            if acc > 0x7FFF_FFFF {
                return None;
            }
            Some(XUserId(acc as i32))
        }
    }

    /// Renders the caller id as the header's decimal text.
    pub fn encode(&self) -> (r: String)
        ensures
            r@ == int_string(self.0 as int),
    {
        i32_string(self.0)
    }
}

} // verus!
