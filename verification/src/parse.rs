//! Validation of the `id` query parameter: one parsing step shared by the
//! `/on` and `/off` handlers, so the error taxonomy has a single source of
//! truth.

use vstd::prelude::*;

use crate::outlet::OutletError;

verus! {

/// `c` is a decimal digit.
pub open spec fn is_digit(c: char) -> bool {
    ('0' as u32) <= (c as u32) && (c as u32) <= ('9' as u32)
}

/// The numeric value of the digit `c`.
pub open spec fn digit_val(c: char) -> nat
    recommends
        is_digit(c),
{
    ((c as u32) - ('0' as u32)) as nat
}

/// Every character of `s` is a decimal digit.
pub open spec fn all_digits(s: Seq<char>) -> bool {
    forall|i: int| 0 <= i < s.len() ==> is_digit(#[trigger] s[i])
}

/// The value of `s` read as a decimal numeral.
pub open spec fn dec_val(s: Seq<char>) -> nat
    recommends
        all_digits(s),
    decreases s.len(),
{
    if s.len() == 0 {
        0
    } else {
        dec_val(s.drop_last()) * 10 + digit_val(s.last())
    }
}

/// A digit string's value never drops when more digits follow: the value of a
/// prefix is at most the value of the whole numeral.
pub proof fn lemma_dec_val_prefix_le(s: Seq<char>, j: int)
    requires
        0 <= j <= s.len(),
    ensures
        dec_val(s.subrange(0, j)) <= dec_val(s),
    decreases s.len() - j,
{
    if j == s.len() {
        assert(s.subrange(0, j) =~= s);
    } else {
        let shorter = s.subrange(0, j);
        let longer = s.subrange(0, j + 1);
        assert(longer.drop_last() =~= shorter);
        assert(dec_val(longer) == dec_val(shorter) * 10 + digit_val(longer.last()));
        assert(dec_val(shorter) <= dec_val(shorter) * 10);
        lemma_dec_val_prefix_le(s, j + 1);
    }
}

/// What a well-formed `id` parameter denotes: a non-empty string of decimal
/// digits whose value fits the identifier type; anything else is rejected.
pub open spec fn id_of_param(p: Seq<char>) -> Option<usize> {
    if p.len() > 0 && all_digits(p) && dec_val(p) <= usize::MAX {
        Some(dec_val(p) as usize)
    } else {
        None
    }
}

/// Parses the `id` query parameter.
pub fn parse_id(s: &str) -> (r: Option<usize>)
    ensures
        r == id_of_param(s@),
{
    let len = s.unicode_len();
    if len == 0 {
        return None;
    }
    let mut n: usize = 0;
    let mut i: usize = 0;
    while i < len
        invariant
            len == s@.len(),
            i <= len,
            all_digits(s@.subrange(0, i as int)),
            n as nat == dec_val(s@.subrange(0, i as int)),
        decreases len - i,
    {
        let c = s.get_char(i);
        let code = c as u32;
        if code < 48 || code > 57 {
            proof {
                assert(!is_digit(s@[i as int]));
            }
            return None;
        }
        let digit = (code - 48) as usize;
        proof {
            assert(is_digit(s@[i as int]));
            assert(digit as nat == digit_val(s@[i as int]));
            assert(s@.subrange(0, i as int + 1).drop_last() =~= s@.subrange(0, i as int));
            assert(s@.subrange(0, i as int + 1).last() == s@[i as int]);
        }
        let grown = match n.checked_mul(10) {
            Some(v) => v.checked_add(digit),
            None => None,
        };
        match grown {
            Some(v) => {
                n = v;
                i += 1;
            },
            None => {
                proof {
                    assert(dec_val(s@.subrange(0, i as int + 1)) > usize::MAX);
                    lemma_dec_val_prefix_le(s@, i as int + 1);
                }
                return None;
            },
        }
    }
    proof {
        assert(s@.subrange(0, len as int) =~= s@);
    }
    Some(n)
}

/// Validates the `id` query parameter of a switch request: absent, malformed
/// and oversized parameters are told apart for logging, though the wire
/// surfaces them all the same way.
pub fn validate_id_param(id_param: Option<&str>) -> (r: Result<usize, OutletError>)
    ensures
        match id_param {
            None => r matches Err(OutletError::MissingParameter),
            Some(s) => match id_of_param(s@) {
                Some(id) => r matches Ok(n) && n == id,
                None => r matches Err(OutletError::MalformedParameter),
            },
        },
{
    match id_param {
        None => Err(OutletError::MissingParameter),
        Some(s) => match parse_id(s) {
            Some(n) => Ok(n),
            None => Err(OutletError::MalformedParameter),
        },
    }
}

} // verus!
