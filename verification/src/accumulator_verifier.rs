use vstd::prelude::*;

use crate::accumulator_utils::{
    acc_decodes, acc_membership_check, check_accumulator_value, check_public_key,
    check_setup_params, params_decodes, pk_decodes,
};
use crate::errors::DelegationError;
use crate::text::strs;

verus! {

/// The mathematical content of an accumulator verifier.
pub struct AccumulatorVerifierRep {
    pub value: Seq<char>,
    pub public_key: Seq<char>,
    pub params: Seq<char>,
}

/// What checking a batch of (witness, element) pairs against an accumulator
/// value yields: the first pair that fails to decode or fails the pairing
/// check aborts the batch. Each pair's outcome is a function of that pair
/// alone, so the order of evaluation cannot change the result.
pub open spec fn spec_verify_batch(
    value: Seq<char>,
    pk: Seq<char>,
    params: Seq<char>,
    witnesses: Seq<Seq<char>>,
    elements: Seq<Seq<char>>,
    i: int,
) -> Result<(), DelegationError>
    decreases elements.len() - i,
    when 0 <= i <= elements.len() && witnesses.len() == elements.len()
{
    if i >= elements.len() {
        Ok(())
    } else {
        match acc_membership_check(value, elements[i], witnesses[i], pk, params) {
            None => Err(DelegationError::Deserialize),
            Some(false) => Err(DelegationError::MembershipFailed { index: i as usize }),
            Some(true) => spec_verify_batch(value, pk, params, witnesses, elements, i + 1),
        }
    }
}

/// What the batch verifier returns for given vectors.
pub open spec fn spec_verify_witnesses(
    v: AccumulatorVerifierRep,
    witnesses: Seq<Seq<char>>,
    elements: Seq<Seq<char>>,
) -> Result<(), DelegationError> {
    if witnesses.len() != elements.len() {
        Err(DelegationError::LengthMismatch)
    } else {
        spec_verify_batch(v.value, v.public_key, v.params, witnesses, elements, 0)
    }
}

/// A verifier for one delegator's accumulator: the serialized value under
/// which witnesses are checked, with the delegator's published public key
/// and setup parameters; construction admits only decodable material.
pub struct AccumulatorVerifier {
    accumulator_value: String,
    public_key: String,
    params: String,
}

impl View for AccumulatorVerifier {
    type V = AccumulatorVerifierRep;

    closed spec fn view(&self) -> AccumulatorVerifierRep {
        AccumulatorVerifierRep {
            value: self.accumulator_value@,
            public_key: self.public_key@,
            params: self.params@,
        }
    }
}

impl AccumulatorVerifier {
    /// The stored material decodes.
    pub open spec fn wf(&self) -> bool {
        &&& acc_decodes(self@.value)
        &&& pk_decodes(self@.public_key)
        &&& params_decodes(self@.params)
    }

    /// Build a verifier; fails `Deserialize` when the accumulator value, the
    /// public key or the setup parameters do not decode.
    pub fn new(accumulator_value: String, public_key: String, params: String) -> (r: Result<
        AccumulatorVerifier,
        DelegationError,
    >)
        ensures
            match r {
                Ok(v) => v.wf() && v@ == (AccumulatorVerifierRep {
                    value: accumulator_value@,
                    public_key: public_key@,
                    params: params@,
                }),
                Err(e) => e == DelegationError::Deserialize && !(acc_decodes(accumulator_value@)
                    && pk_decodes(public_key@) && params_decodes(params@)),
            },
    {
        if !check_accumulator_value(&accumulator_value) {
            return Err(DelegationError::Deserialize);
        }
        if !check_public_key(&public_key) {
            return Err(DelegationError::Deserialize);
        }
        if !check_setup_params(&params) {
            return Err(DelegationError::Deserialize);
        }
        Ok(AccumulatorVerifier { accumulator_value, public_key, params })
    }

    /// Check a batch of witnesses against the elements at the same indices.
    /// Fails `LengthMismatch` when the vectors differ in length, and aborts
    /// at the first pair that fails to decode or fails the membership check.
    /// Each pair is independent of the others, so a caller that fans the
    /// pairs out to workers observes the same result; this implementation
    /// checks them in order.
    #[verifier::loop_isolation(false)]
    pub fn verify_accumulator_witnesses(
        &self,
        witnesses: Vec<String>,
        elements: Vec<String>,
        parallel: bool,
    ) -> (r: Result<(), DelegationError>)
        requires
            self.wf(),
        ensures
            r == spec_verify_witnesses(self@, strs(witnesses@), strs(elements@)),
    {
        let _ = parallel;
        if witnesses.len() != elements.len() {
            return Err(DelegationError::LengthMismatch);
        }
        let ghost ws = strs(witnesses@);
        let ghost es = strs(elements@);
        let mut i: usize = 0;
        while i < elements.len()
            invariant
                0 <= i <= elements@.len(),
                spec_verify_batch(self@.value, self@.public_key, self@.params, ws, es, 0)
                    == spec_verify_batch(self@.value, self@.public_key, self@.params, ws, es,
                i as int),
            decreases elements@.len() - i,
        {
            match crate::accumulator_utils::accumulator_verify_membership(
                &self.accumulator_value,
                &elements[i],
                &witnesses[i],
                &self.public_key,
                &self.params,
            ) {
                Some(true) => {},
                Some(false) => {
                    return Err(DelegationError::MembershipFailed { index: i });
                },
                None => {
                    return Err(DelegationError::Deserialize);
                },
            }
            i = i + 1;
        }
        Ok(())
    }
}

} // verus!
