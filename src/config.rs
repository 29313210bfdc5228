use crate::model::{ConfigToken, GenerateError};
use vstd::prelude::*;
use vstd::string::StrSliceExecFns;

verus! {

/// The mailbox capacity when the configuration does not give one.
pub const STD_QUEUE_DEPTH: usize = 10;

pub open spec fn is_digit(c: char) -> bool {
    '0' <= c <= '9'
}

pub open spec fn digit_value(c: char) -> nat {
    (c as u32 - '0' as u32) as nat
}

/// The number that a string of decimal digits denotes.
pub open spec fn digits_value(s: Seq<char>) -> nat
    decreases s.len(),
{
    if s.len() == 0 {
        0
    } else {
        digits_value(s.drop_last()) * 10 + digit_value(s.last())
    }
}

pub open spec fn is_decimal(s: Seq<char>) -> bool {
    s.len() > 0 && forall|i: int| 0 <= i < s.len() ==> is_digit(#[trigger] s[i])
}

/// The mailbox capacity that a literal sets: a positive decimal number that fits a `usize`.
pub open spec fn capacity_of_literal(s: Seq<char>) -> Option<usize> {
    if is_decimal(s) && 0 < digits_value(s) <= usize::MAX {
        Some(digits_value(s) as usize)
    } else {
        None
    }
}

/// The mailbox capacity that a configuration sets: a lone literal sets it;
/// anything else leaves the default.
pub open spec fn configured_capacity(attr: Seq<ConfigToken>) -> Option<usize> {
    if attr.len() == 1 {
        match attr[0] {
            ConfigToken::Literal(t) => capacity_of_literal(t@),
            ConfigToken::Other => Some(STD_QUEUE_DEPTH),
        }
    } else {
        Some(STD_QUEUE_DEPTH)
    }
}

proof fn lemma_digits_prefix_le(s: Seq<char>, i: int)
    requires
        0 <= i <= s.len(),
    ensures
        digits_value(s.take(i)) <= digits_value(s),
    decreases s.len() - i,
{
    if i < s.len() {
        lemma_digits_prefix_le(s, i + 1);
        assert(s.take(i + 1).drop_last() =~= s.take(i));
        assert(digits_value(s.take(i)) <= digits_value(s.take(i)) * 10) by (nonlinear_arith);
    } else {
        assert(s.take(i) =~= s);
    }
}

/// The number that `text` denotes when it is made of decimal digits alone and
/// fits a `usize`.
pub fn parse_decimal(text: &str) -> (r: Option<usize>)
    ensures
        r == (if is_decimal(text@) && digits_value(text@) <= usize::MAX {
            Some(digits_value(text@) as usize)
        } else {
            None
        }),
{
    let n = text.unicode_len();
    if n == 0 {
        return None;
    }
    let mut v: usize = 0;
    let mut i: usize = 0;
    while i < n
        invariant
            n == text@.len(),
            0 <= i <= n,
            v == digits_value(text@.take(i as int)),
            forall|l: int| 0 <= l < i ==> is_digit(#[trigger] text@[l]),
        decreases n - i,
    {
        let c = text.get_char(i);
        proof {
            assert(text@.take(i + 1).drop_last() =~= text@.take(i as int));
        }
        if !('0' <= c && c <= '9') {
            return None;
        }
        let d = (c as u32 - '0' as u32) as usize;
        match v.checked_mul(10) {
            Some(w) => match w.checked_add(d) {
                Some(x) => {
                    v = x;
                },
                None => {
                    proof {
                        lemma_digits_prefix_le(text@, i + 1);
                    }
                    return None;
                },
            },
            None => {
                proof {
                    lemma_digits_prefix_le(text@, i + 1);
                }
                return None;
            },
        }
        i = i + 1;
    }
    assert(text@.take(n as int) =~= text@);
    Some(v)
}

/// The mailbox capacity that `attr` sets, or an error naming the literal that
/// is not a positive decimal number.
pub fn capacity_from_attr(attr: &Vec<ConfigToken>) -> (r: Result<usize, GenerateError>)
    ensures
        match r {
            Ok(q) => configured_capacity(attr@) == Some(q),
            Err(e) => configured_capacity(attr@) is None && match e {
                GenerateError::InvalidCapacity { literal } => attr@[0] matches ConfigToken::Literal(t)
                    && t@ == literal@,
                _ => false,
            },
        },
{
    if attr.len() == 1 {
        match &attr[0] {
            ConfigToken::Literal(t) => match parse_decimal(t.as_str()) {
                Some(q) => {
                    if q > 0 {
                        Ok(q)
                    } else {
                        Err(GenerateError::InvalidCapacity { literal: t.clone() })
                    }
                },
                None => Err(GenerateError::InvalidCapacity { literal: t.clone() }),
            },
            ConfigToken::Other => Ok(STD_QUEUE_DEPTH),
        }
    } else {
        Ok(STD_QUEUE_DEPTH)
    }
}

} // verus!
