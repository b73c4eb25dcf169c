use vstd::prelude::*;

use crate::errors::DelegationError;
use crate::json::{
    encode_json, lemma_rep_of_members, obj_get, parse_json, rep_of_members, spec_encode,
    spec_obj_get, JsonRep, JsonValue,
};
use crate::pjv_delegator::{
    lemma_pjv_delegator_map_round_trip, spec_pjv_delegator_from_map, spec_pjv_delegator_members,
    PJVDelegator, PJVDelegatorRep,
};
use crate::pjv_signature::{
    lemma_signature_map_round_trip, spec_signature_from_map, spec_signature_members, PJVSignature,
};
use crate::retention::{kept, removed_indices, removed_upto};
use crate::text::strs;

verus! {

broadcast use vstd::string::group_string_axioms;

/// The mathematical content of a scheme-B delegation credential.
pub struct PJVDelegationCredentialRep {
    pub delegator: PJVDelegatorRep,
    pub signature: Seq<char>,
}

/// A scheme-B delegation credential: a claim set and the issuer's Ed25519
/// signature over its canonical JSON.
pub struct PJVDelegationCredential {
    delegator: PJVDelegator,
    signature: PJVSignature,
}

impl View for PJVDelegationCredential {
    type V = PJVDelegationCredentialRep;

    closed spec fn view(&self) -> PJVDelegationCredentialRep {
        PJVDelegationCredentialRep { delegator: self.delegator@, signature: self.signature@ }
    }
}

/// The JSON object members of a scheme-B credential, in canonical order.
pub open spec fn spec_pjv_dc_members(dc: PJVDelegationCredentialRep) -> Seq<(Seq<char>, JsonRep)> {
    seq![
        ("claims"@, JsonRep::Obj(spec_pjv_delegator_members(dc.delegator))),
        ("auth"@, JsonRep::Obj(spec_signature_members(dc.signature))),
    ]
}

/// The canonical JSON text of a scheme-B credential: what the hierarchy
/// field of a child credential encrypts.
pub open spec fn spec_pjv_dc_json(dc: PJVDelegationCredentialRep) -> Seq<char> {
    spec_encode(JsonRep::Obj(spec_pjv_dc_members(dc)))
}

/// What reading a scheme-B credential out of a JSON object yields.
pub open spec fn spec_pjv_dc_from_map(m: Seq<(Seq<char>, JsonRep)>) -> Option<
    PJVDelegationCredentialRep,
> {
    if (spec_obj_get(m, "claims"@) matches Some(JsonRep::Obj(dm)) && spec_pjv_delegator_from_map(
        dm,
    ) is Some) && (spec_obj_get(m, "auth"@) matches Some(JsonRep::Obj(sm))
        && spec_signature_from_map(sm) is Some) {
        Some(
            PJVDelegationCredentialRep {
                delegator: spec_pjv_delegator_from_map(
                    spec_obj_get(m, "claims"@)->Some_0->Obj_0,
                )->Some_0,
                signature: spec_signature_from_map(spec_obj_get(m, "auth"@)->Some_0->Obj_0)->Some_0,
            },
        )
    } else {
        None
    }
}

/// A credential after pruning to the allowed operations.
pub open spec fn spec_pjv_retained(
    dc: PJVDelegationCredentialRep,
    allowed: Seq<Seq<char>>,
) -> PJVDelegationCredentialRep {
    PJVDelegationCredentialRep {
        delegator: PJVDelegatorRep {
            operations: kept(dc.delegator.operations, dc.delegator.operations, allowed),
            ..dc.delegator
        },
        ..dc
    }
}

impl PJVDelegationCredential {
    pub fn new(delegator: PJVDelegator, signature: PJVSignature) -> (r: Result<
        PJVDelegationCredential,
        DelegationError,
    >)
        ensures
            r matches Ok(dc) && dc@ == (PJVDelegationCredentialRep {
                delegator: delegator@,
                signature: signature@,
            }),
    {
        Ok(PJVDelegationCredential { delegator, signature })
    }

    pub fn delegator(&self) -> (r: &PJVDelegator)
        ensures
            r@ == self@.delegator,
    {
        &self.delegator
    }

    pub fn signature(&self) -> (r: &PJVSignature)
        ensures
            r@ == self@.signature,
    {
        &self.signature
    }

    /// Replace the signature, leaving the claims untouched; a presentation
    /// is re-signed after its operations are pruned.
    pub fn set_signature(&mut self, signature: PJVSignature)
        ensures
            final(self)@ == (PJVDelegationCredentialRep {
                delegator: old(self)@.delegator,
                signature: signature@,
            }),
    {
        self.signature = signature;
    }

    /// The stable type tag of this credential shape.
    pub fn credential_type(&self) -> (r: &'static str)
        ensures
            r@ == "PJVDelegationCredential"@,
    {
        "PJVDelegationCredential"
    }

    /// A credential is empty when nothing disclosable is left in it.
    pub fn is_empty(&self) -> (r: bool)
        ensures
            r == (self@.delegator.operations.len() == 0 || self@.delegator.resource_uri.len()
                == 0),
    {
        self.delegator.operations().len() == 0 || self.delegator.resource_uri().as_str().is_empty()
    }

    /// The JSON object members of this credential, in canonical order.
    pub fn to_map(&self) -> (r: Vec<(String, JsonValue)>)
        ensures
            rep_of_members(r@) == spec_pjv_dc_members(self@),
    {
        let mut m: Vec<(String, JsonValue)> = Vec::new();
        m.push((String::from_str("claims"), JsonValue::JObject(self.delegator.to_map())));
        m.push((String::from_str("auth"), JsonValue::JObject(self.signature.to_map())));
        proof {
            lemma_rep_of_members(m@);
            assert(rep_of_members(m@) =~= spec_pjv_dc_members(self@));
        }
        m
    }

    /// Read a scheme-B credential out of a JSON object.
    pub fn from_map(map: &Vec<(String, JsonValue)>) -> (r: Result<
        PJVDelegationCredential,
        DelegationError,
    >)
        ensures
            match r {
                Ok(dc) => spec_pjv_dc_from_map(rep_of_members(map@)) == Some(dc@),
                Err(e) => e == DelegationError::Deserialize && spec_pjv_dc_from_map(
                    rep_of_members(map@),
                ) is None,
            },
    {
        let delegator = match obj_get(map, &String::from_str("claims")) {
            Some(v) => match v {
                JsonValue::JObject(dm) => match PJVDelegator::from_map(dm) {
                    Ok(d) => d,
                    Err(e) => {
                        return Err(e);
                    },
                },
                _ => {
                    return Err(DelegationError::Deserialize);
                },
            },
            None => {
                return Err(DelegationError::Deserialize);
            },
        };
        let signature = match obj_get(map, &String::from_str("auth")) {
            Some(v) => match v {
                JsonValue::JObject(sm) => match PJVSignature::from_map(sm) {
                    Ok(s) => s,
                    Err(e) => {
                        return Err(e);
                    },
                },
                _ => {
                    return Err(DelegationError::Deserialize);
                },
            },
            None => {
                return Err(DelegationError::Deserialize);
            },
        };
        Ok(PJVDelegationCredential { delegator, signature })
    }

    /// Render this credential as its canonical JSON text.
    pub fn to_string(&self) -> (r: Result<String, DelegationError>)
        ensures
            r matches Ok(s) && s@ == spec_pjv_dc_json(self@),
    {
        Ok(encode_json(&JsonValue::JObject(self.to_map())))
    }

    /// Parse a credential from JSON text; whitespace and member order are
    /// free, the member shapes are not.
    pub fn from_string(text: &String) -> (r: Result<PJVDelegationCredential, DelegationError>)
        ensures
            r matches Ok(dc) ==> (exists|m: Seq<(Seq<char>, JsonRep)>|
                spec_pjv_dc_from_map(m) == Some(dc@)),
    {
        let parsed = match parse_json(text) {
            Ok(v) => v,
            Err(e) => {
                return Err(e);
            },
        };
        let members = match parsed {
            JsonValue::JObject(members) => members,
            _ => {
                return Err(DelegationError::Deserialize);
            },
        };
        match Self::from_map(&members) {
            Ok(dc) => {
                proof {
                    assert(spec_pjv_dc_from_map(rep_of_members(members@)) == Some(dc@));
                }
                Ok(dc)
            },
            Err(e) => Err(e),
        }
    }

    /// Keep only the operations in `allowed`, preserving their order.
    /// Returns the removed indices, ascending.
    pub fn retain_only(&mut self, allowed: Vec<String>) -> (r: Result<Vec<usize>, DelegationError>)
        ensures
            final(self)@ == spec_pjv_retained(old(self)@, strs(allowed@)),
            r matches Ok(idx) && idx@.map_values(|u: usize| u as int) == removed_upto(
                old(self)@.delegator.operations,
                strs(allowed@),
                old(self)@.delegator.operations.len() as int,
            ),
    {
        let removed = removed_indices(self.delegator.operations(), &allowed);
        let new_operations = crate::retention::filter_kept(
            self.delegator.operations(),
            self.delegator.operations(),
            &allowed,
        );
        let pruned = self.delegator.with_operations(new_operations);
        self.delegator = pruned;
        Ok(removed)
    }
}

impl Clone for PJVDelegationCredential {
    /// Cloning preserves the mathematical content.
    fn clone(&self) -> (r: Self)
        ensures
            r@ == self@,
    {
        PJVDelegationCredential {
            delegator: self.delegator.clone(),
            signature: self.signature.clone(),
        }
    }
}

/// Reading back the canonical JSON object of a scheme-B credential yields
/// the credential itself: the map half of the round-trip law.
pub proof fn lemma_pjv_credential_map_round_trip(dc: PJVDelegationCredentialRep)
    ensures
        spec_pjv_dc_from_map(spec_pjv_dc_members(dc)) == Some(dc),
{
    reveal_strlit("claims");
    reveal_strlit("auth");
    assert("claims"@.len() == 6 && "auth"@.len() == 4);
    let m = spec_pjv_dc_members(dc);
    let m1 = m.drop_first();
    assert(m1[0] == m[1]);
    assert(spec_obj_get(m, "claims"@) == Some(
        JsonRep::Obj(spec_pjv_delegator_members(dc.delegator)),
    ));
    assert(spec_obj_get(m, "auth"@) == spec_obj_get(m1, "auth"@));
    assert(spec_obj_get(m1, "auth"@) == Some(JsonRep::Obj(spec_signature_members(dc.signature))));
    lemma_pjv_delegator_map_round_trip(dc.delegator);
    lemma_signature_map_round_trip(dc.signature);
}

} // verus!
