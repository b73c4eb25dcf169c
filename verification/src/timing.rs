use vstd::prelude::*;

use crate::errors::DelegationError;
use crate::numbers::{parse_dec, spec_parse_dec};
use crate::text::string_to_chars;

verus! {

/// What `verify_timings` returns for a given clock reading and the two
/// timestamp strings: both must parse as unsigned decimals, the clock must
/// lie in `[iat, exp]`, and `iat` must not exceed `exp`.
pub open spec fn spec_verify_timings(now: u128, iat: Seq<char>, exp: Seq<char>) -> Result<
    (),
    DelegationError,
> {
    if spec_parse_dec(iat) is None || spec_parse_dec(exp) is None {
        Err(DelegationError::ParseError)
    } else {
        let iat_ns = spec_parse_dec(iat)->Some_0;
        let exp_ns = spec_parse_dec(exp)->Some_0;
        if now < iat_ns {
            Err(DelegationError::NotYetValid)
        } else if now > exp_ns {
            Err(DelegationError::Expired)
        } else if iat_ns > exp_ns {
            Err(DelegationError::Inverted)
        } else {
            Ok(())
        }
    }
}

/// Check that a credential issued at `iat` and expiring at `exp` (both
/// decimal nanosecond strings) is valid at time `now`.
pub fn verify_timings(now: u128, iat: &String, exp: &String) -> (r: Result<(), DelegationError>)
    ensures
        r == spec_verify_timings(now, iat@, exp@),
{
    let iat_chars = string_to_chars(iat.as_str());
    let iat_ns = match parse_dec(&iat_chars) {
        Some(v) => v,
        None => {
            return Err(DelegationError::ParseError);
        },
    };
    let exp_chars = string_to_chars(exp.as_str());
    let exp_ns = match parse_dec(&exp_chars) {
        Some(v) => v,
        None => {
            return Err(DelegationError::ParseError);
        },
    };
    if now < iat_ns {
        Err(DelegationError::NotYetValid)
    } else if now > exp_ns {
        Err(DelegationError::Expired)
    } else if iat_ns > exp_ns {
        Err(DelegationError::Inverted)
    } else {
        Ok(())
    }
}

} // verus!
