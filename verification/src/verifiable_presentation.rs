use vstd::prelude::*;

use crate::errors::DelegationError;
use crate::jose::{ed25519_public_of, jws_payload, jws_sign, jws_token_of, jws_verify};
use crate::json::{
    encode_json, lemma_rep_of_members, parse_json, rep_of_members, spec_encode, JsonRep, JsonValue,
};
use crate::our_delegation_credential::{
    spec_odc_members, spec_retained, OurDelegationCredential, OurDelegationCredentialRep,
};
use crate::pjv_delegation_credential::{
    spec_pjv_dc_members, spec_pjv_retained, PJVDelegationCredential, PJVDelegationCredentialRep,
};
use crate::pjv_signature::PJVSignature;
use crate::text::strs;
use crate::verifiable_credential::{
    envelope_from_map, spec_envelope_members, EnvelopeRep, VerifiableCredential,
};

verus! {

/// A verifiable presentation: the same envelope as a credential, derived
/// from one by pruning the disclosed claims, and signed as a compact JWS.
pub struct VerifiablePresentation<C> {
    context: Vec<String>,
    credential_type: Vec<String>,
    id: String,
    issuer: String,
    valid_from: String,
    credential: C,
}

impl<C: View> View for VerifiablePresentation<C> {
    type V = EnvelopeRep<C::V>;

    closed spec fn view(&self) -> EnvelopeRep<C::V> {
        EnvelopeRep {
            context: strs(self.context@),
            credential_type: strs(self.credential_type@),
            id: self.id@,
            issuer: self.issuer@,
            valid_from: self.valid_from@,
            credential: self.credential@,
        }
    }
}

impl<C: View> VerifiablePresentation<C> {
    pub fn new(
        context: Vec<String>,
        credential_type: Vec<String>,
        id: String,
        issuer: String,
        valid_from: String,
        credential: C,
    ) -> (r: VerifiablePresentation<C>)
        ensures
            r@ == (EnvelopeRep {
                context: strs(context@),
                credential_type: strs(credential_type@),
                id: id@,
                issuer: issuer@,
                valid_from: valid_from@,
                credential: credential@,
            }),
    {
        VerifiablePresentation { context, credential_type, id, issuer, valid_from, credential }
    }

    pub fn context(&self) -> (r: &Vec<String>)
        ensures
            strs(r@) == self@.context,
    {
        &self.context
    }

    pub fn credential_type(&self) -> (r: &Vec<String>)
        ensures
            strs(r@) == self@.credential_type,
    {
        &self.credential_type
    }

    pub fn id(&self) -> (r: &String)
        ensures
            r@ == self@.id,
    {
        &self.id
    }

    pub fn issuer(&self) -> (r: &String)
        ensures
            r@ == self@.issuer,
    {
        &self.issuer
    }

    pub fn valid_from(&self) -> (r: &String)
        ensures
            r@ == self@.valid_from,
    {
        &self.valid_from
    }

    pub fn credential(&self) -> (r: &C)
        ensures
            r@ == self@.credential,
    {
        &self.credential
    }
}

/// The canonical JSON text of a scheme-A presentation: the JWS payload.
pub open spec fn spec_vp_a_json(v: EnvelopeRep<OurDelegationCredentialRep>) -> Seq<char> {
    spec_encode(
        JsonRep::Obj(
            spec_envelope_members(
                v.context,
                v.credential_type,
                v.id,
                v.issuer,
                v.valid_from,
                JsonRep::Obj(spec_odc_members(v.credential)),
            ),
        ),
    )
}

/// The canonical JSON text of a scheme-B presentation: the JWS payload.
pub open spec fn spec_vp_b_json(v: EnvelopeRep<PJVDelegationCredentialRep>) -> Seq<char> {
    spec_encode(
        JsonRep::Obj(
            spec_envelope_members(
                v.context,
                v.credential_type,
                v.id,
                v.issuer,
                v.valid_from,
                JsonRep::Obj(spec_pjv_dc_members(v.credential)),
            ),
        ),
    )
}

impl VerifiablePresentation<OurDelegationCredential> {
    /// Derive a presentation disclosing only the claims in `claims_to_keep`;
    /// refuses a presentation with nothing left to disclose.
    pub fn from_verifiable_credential(
        vc: VerifiableCredential<OurDelegationCredential>,
        claims_to_keep: Vec<String>,
    ) -> (r: Result<VerifiablePresentation<OurDelegationCredential>, DelegationError>)
        requires
            vc@.credential.wf_cardinality(),
        ensures
            ({
                let pruned = spec_retained(vc@.credential, strs(claims_to_keep@));
                match r {
                    Ok(vp) => pruned.permissions.len() > 0 && pruned.permission_witnesses.len()
                        > 0 && vp@ == (EnvelopeRep {
                        context: vc@.context,
                        credential_type: vc@.credential_type,
                        id: vc@.id,
                        issuer: vc@.issuer,
                        valid_from: vc@.valid_from,
                        credential: pruned,
                    }),
                    Err(e) => e == DelegationError::EmptyPermissions && (pruned.permissions.len()
                        == 0 || pruned.permission_witnesses.len() == 0),
                }
            }),
    {
        let mut credential = vc.credential().clone();
        let context = vc.context().clone();
        let credential_type = vc.credential_type().clone();
        let id = vc.id().clone();
        let issuer = vc.issuer().clone();
        let valid_from = vc.valid_from().clone();
        let _removed = match credential.retain_only(claims_to_keep) {
            Ok(idx) => idx,
            Err(e) => {
                return Err(e);
            },
        };
        if credential.is_empty() {
            return Err(DelegationError::EmptyPermissions);
        }
        proof {
            assert(strs(context@) =~= vc@.context);
            assert(strs(credential_type@) =~= vc@.credential_type);
        }
        Ok(VerifiablePresentation { context, credential_type, id, issuer, valid_from, credential })
    }

    /// The JSON object members of this presentation, in canonical order.
    pub fn to_map(&self) -> (r: Vec<(String, JsonValue)>)
        ensures
            rep_of_members(r@) == spec_envelope_members(
                self@.context,
                self@.credential_type,
                self@.id,
                self@.issuer,
                self@.valid_from,
                JsonRep::Obj(spec_odc_members(self@.credential)),
            ),
    {
        let mut m: Vec<(String, JsonValue)> = Vec::new();
        m.push((String::from_str("@context"), crate::json::strings_to_json(&self.context)));
        m.push((String::from_str("type"), crate::json::strings_to_json(&self.credential_type)));
        m.push((String::from_str("id"), JsonValue::JString(self.id.clone())));
        m.push((String::from_str("issuer"), JsonValue::JString(self.issuer.clone())));
        m.push((String::from_str("validFrom"), JsonValue::JString(self.valid_from.clone())));
        m.push((String::from_str("credentialSubject"), JsonValue::JObject(self.credential.to_map())));
        proof {
            lemma_rep_of_members(m@);
            assert(rep_of_members(m@) =~= spec_envelope_members(
                self@.context,
                self@.credential_type,
                self@.id,
                self@.issuer,
                self@.valid_from,
                JsonRep::Obj(spec_odc_members(self@.credential)),
            ));
        }
        m
    }

    /// Sign this presentation as a compact JWS with the holder's Ed25519
    /// signing key; the payload is the canonical JSON of the presentation.
    pub fn to_signed_jwt(&self, signing_secret: &Vec<u8>) -> (r: Result<String, DelegationError>)
        requires
            signing_secret@.len() == 32,
        ensures
            r matches Ok(t) && t@ == jws_token_of(spec_vp_a_json(self@), signing_secret@)
                && jws_payload(t@, ed25519_public_of(signing_secret@)) == Some(
                spec_vp_a_json(self@),
            ),
    {
        let payload = encode_json(&JsonValue::JObject(self.to_map()));
        Ok(jws_sign(payload.as_str(), signing_secret))
    }

    /// Verify a compact JWS under the presenter's published key and decode
    /// the presentation it carries.
    pub fn from_signed_jwt(jwt: &String, public_key: &Vec<u8>) -> (r: Result<
        VerifiablePresentation<OurDelegationCredential>,
        DelegationError,
    >)
        ensures
            r matches Ok(vp) ==> jws_payload(jwt@, public_key@) is Some,
            r matches Err(e) ==> e == DelegationError::JWSInvalid || e
                == DelegationError::Deserialize,
            r matches Err(e) && e == DelegationError::JWSInvalid ==> jws_payload(
                jwt@,
                public_key@,
            ) is None,
            jws_payload(jwt@, public_key@) is None ==> (r matches Err(e) && e
                == DelegationError::JWSInvalid),
    {
        let payload = match jws_verify(jwt.as_str(), public_key) {
            Ok(p) => p,
            Err(e) => {
                return Err(e);
            },
        };
        let parsed = match parse_json(&payload) {
            Ok(v) => v,
            Err(_) => {
                return Err(DelegationError::Deserialize);
            },
        };
        let members = match parsed {
            JsonValue::JObject(members) => members,
            _ => {
                return Err(DelegationError::Deserialize);
            },
        };
        let (context, credential_type, id, issuer, valid_from, subject) = match envelope_from_map(
            &members,
        ) {
            Ok(t) => t,
            Err(e) => {
                return Err(e);
            },
        };
        let inner = match subject {
            JsonValue::JObject(sm) => sm,
            _ => {
                return Err(DelegationError::Deserialize);
            },
        };
        let credential = match OurDelegationCredential::from_map(inner) {
            Ok(c) => c,
            Err(e) => {
                return Err(e);
            },
        };
        Ok(VerifiablePresentation { context, credential_type, id, issuer, valid_from, credential })
    }
}

impl VerifiablePresentation<PJVDelegationCredential> {
    /// Derive a presentation disclosing only the operations in
    /// `claims_to_keep`; refuses a presentation with nothing left.
    pub fn from_verifiable_credential(
        vc: VerifiableCredential<PJVDelegationCredential>,
        claims_to_keep: Vec<String>,
    ) -> (r: Result<VerifiablePresentation<PJVDelegationCredential>, DelegationError>)
        ensures
            ({
                let pruned = spec_pjv_retained(vc@.credential, strs(claims_to_keep@));
                match r {
                    Ok(vp) => pruned.delegator.operations.len() > 0
                        && pruned.delegator.resource_uri.len() > 0 && vp@ == (EnvelopeRep {
                        context: vc@.context,
                        credential_type: vc@.credential_type,
                        id: vc@.id,
                        issuer: vc@.issuer,
                        valid_from: vc@.valid_from,
                        credential: pruned,
                    }),
                    Err(e) => e == DelegationError::EmptyOperations && (
                    pruned.delegator.operations.len() == 0 || pruned.delegator.resource_uri.len()
                        == 0),
                }
            }),
    {
        let mut credential = vc.credential().clone();
        let context = vc.context().clone();
        let credential_type = vc.credential_type().clone();
        let id = vc.id().clone();
        let issuer = vc.issuer().clone();
        let valid_from = vc.valid_from().clone();
        let _removed = match credential.retain_only(claims_to_keep) {
            Ok(idx) => idx,
            Err(e) => {
                return Err(e);
            },
        };
        if credential.is_empty() {
            return Err(DelegationError::EmptyOperations);
        }
        proof {
            assert(strs(context@) =~= vc@.context);
            assert(strs(credential_type@) =~= vc@.credential_type);
        }
        Ok(VerifiablePresentation { context, credential_type, id, issuer, valid_from, credential })
    }

    /// Replace the inner credential's signature; a scheme-B presentation is
    /// re-signed over the pruned claim set before the outer JWS is made.
    pub fn replace_credential_signature(&mut self, signature: PJVSignature)
        ensures
            final(self)@ == (EnvelopeRep {
                credential: (PJVDelegationCredentialRep {
                    delegator: old(self)@.credential.delegator,
                    signature: signature@,
                }),
                ..old(self)@
            }),
    {
        self.credential.set_signature(signature);
    }

    /// The JSON object members of this presentation, in canonical order.
    pub fn to_map(&self) -> (r: Vec<(String, JsonValue)>)
        ensures
            rep_of_members(r@) == spec_envelope_members(
                self@.context,
                self@.credential_type,
                self@.id,
                self@.issuer,
                self@.valid_from,
                JsonRep::Obj(spec_pjv_dc_members(self@.credential)),
            ),
    {
        let mut m: Vec<(String, JsonValue)> = Vec::new();
        m.push((String::from_str("@context"), crate::json::strings_to_json(&self.context)));
        m.push((String::from_str("type"), crate::json::strings_to_json(&self.credential_type)));
        m.push((String::from_str("id"), JsonValue::JString(self.id.clone())));
        m.push((String::from_str("issuer"), JsonValue::JString(self.issuer.clone())));
        m.push((String::from_str("validFrom"), JsonValue::JString(self.valid_from.clone())));
        m.push((String::from_str("credentialSubject"), JsonValue::JObject(self.credential.to_map())));
        proof {
            lemma_rep_of_members(m@);
            assert(rep_of_members(m@) =~= spec_envelope_members(
                self@.context,
                self@.credential_type,
                self@.id,
                self@.issuer,
                self@.valid_from,
                JsonRep::Obj(spec_pjv_dc_members(self@.credential)),
            ));
        }
        m
    }

    /// Sign this presentation as a compact JWS with the holder's Ed25519
    /// signing key; the payload is the canonical JSON of the presentation.
    pub fn to_signed_jwt(&self, signing_secret: &Vec<u8>) -> (r: Result<String, DelegationError>)
        requires
            signing_secret@.len() == 32,
        ensures
            r matches Ok(t) && t@ == jws_token_of(spec_vp_b_json(self@), signing_secret@)
                && jws_payload(t@, ed25519_public_of(signing_secret@)) == Some(
                spec_vp_b_json(self@),
            ),
    {
        let payload = encode_json(&JsonValue::JObject(self.to_map()));
        Ok(jws_sign(payload.as_str(), signing_secret))
    }

    /// Verify a compact JWS under the presenter's published key and decode
    /// the presentation it carries.
    pub fn from_signed_jwt(jwt: &String, public_key: &Vec<u8>) -> (r: Result<
        VerifiablePresentation<PJVDelegationCredential>,
        DelegationError,
    >)
        ensures
            r matches Ok(vp) ==> jws_payload(jwt@, public_key@) is Some,
            r matches Err(e) ==> e == DelegationError::JWSInvalid || e
                == DelegationError::Deserialize,
            r matches Err(e) && e == DelegationError::JWSInvalid ==> jws_payload(
                jwt@,
                public_key@,
            ) is None,
            jws_payload(jwt@, public_key@) is None ==> (r matches Err(e) && e
                == DelegationError::JWSInvalid),
    {
        let payload = match jws_verify(jwt.as_str(), public_key) {
            Ok(p) => p,
            Err(e) => {
                return Err(e);
            },
        };
        let parsed = match parse_json(&payload) {
            Ok(v) => v,
            Err(_) => {
                return Err(DelegationError::Deserialize);
            },
        };
        let members = match parsed {
            JsonValue::JObject(members) => members,
            _ => {
                return Err(DelegationError::Deserialize);
            },
        };
        let (context, credential_type, id, issuer, valid_from, subject) = match envelope_from_map(
            &members,
        ) {
            Ok(t) => t,
            Err(e) => {
                return Err(e);
            },
        };
        let inner = match subject {
            JsonValue::JObject(sm) => sm,
            _ => {
                return Err(DelegationError::Deserialize);
            },
        };
        let credential = match PJVDelegationCredential::from_map(inner) {
            Ok(c) => c,
            Err(e) => {
                return Err(e);
            },
        };
        Ok(VerifiablePresentation { context, credential_type, id, issuer, valid_from, credential })
    }
}

} // verus!
