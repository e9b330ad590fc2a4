//! The wildcard match on rule resources and the namespace-encoding check.

use vstd::prelude::*;
use vstd::string::StrSliceExecFns;

use crate::errors::Errors;
use crate::utils::strings::{
    all_digits, decimal_value, is_star, is_wildcard, lemma_decimal_value_prefix, valid_u8_decimal,
};

verus! {

/// Wildcard match: a requested string matches a stored one when they are
/// equal, or when the stored one is the wildcard `*`, which matches anything.
pub open spec fn perm_matches(requested: Seq<char>, stored: Seq<char>) -> bool {
    requested == stored || is_star(stored)
}

/// Whether the requested resource or action `rule1` matches the stored string
/// `rule2`: equal strings match, and a stored `*` matches anything.
pub fn allowed_perm(rule1: &String, rule2: &String) -> (r: bool)
    ensures
        r == perm_matches(rule1@, rule2@),
{
    if rule1.eq(rule2) || is_wildcard(rule2.as_str()) {
        return true;
    }
    false
}

/// Checks that a namespace constraint spelled as a string is either the
/// wildcard `*` or a decimal number that fits in a byte (0 to 255).
pub fn validate_ns_permission(namespace: &String) -> (r: Result<(), Errors>)
    ensures
        r == (if is_star(namespace@) || valid_u8_decimal(namespace@) {
            Ok::<(), Errors>(())
        } else {
            Err::<(), Errors>(Errors::InvalidNamespace)
        }),
{
    let s = namespace.as_str();
    if is_wildcard(s) {
        return Ok(());
    }
    let n = s.unicode_len();
    if n == 0 {
        return Err(Errors::InvalidNamespace);
    }
    let mut val: u32 = 0;
    let mut i: usize = 0;
    while i < n
        invariant
            s@ == namespace@,
            !is_star(s@),
            n == s@.len(),
            n > 0,
            0 <= i <= n,
            forall|j: int| 0 <= j < i ==> crate::utils::strings::is_digit(#[trigger] s@[j]),
            val == decimal_value(s@.subrange(0, i as int)),
            val <= 255,
        decreases n - i,
    {
        let c = s.get_char(i);
        let cv = c as u32;
        if cv < 48 || cv > 57 {
            proof {
                assert(!crate::utils::strings::is_digit(s@[i as int]));
                assert(!all_digits(s@));
            }
            return Err(Errors::InvalidNamespace);
        }
        proof {
            assert(s@.subrange(0, (i + 1) as int).drop_last() =~= s@.subrange(0, i as int));
            assert(s@.subrange(0, (i + 1) as int).last() == s@[i as int]);
        }
        val = val * 10 + (cv - 48);
        i = i + 1;
        proof {
            assert(val == decimal_value(s@.subrange(0, i as int)));
        }
        if val > 255 {
            proof {
                if all_digits(s@) {
                    lemma_decimal_value_prefix(s@, i as int);
                }
            }
            return Err(Errors::InvalidNamespace);
        }
    }
    proof {
        assert(s@.subrange(0, n as int) =~= s@);
    }
    Ok(())
}

} // verus!
