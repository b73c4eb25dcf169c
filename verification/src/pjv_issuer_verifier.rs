use vstd::prelude::*;

use crate::dlt_sim::{spec_lookup, DltSim};
use crate::errors::DelegationError;
use crate::jose::{
    current_time_ns, ed25519_check, ed25519_public_key, ed25519_public_of, ed25519_sig_b64,
    ed25519_sign_b64, ed25519_verify_b64, jwe_decrypt, jwe_encrypt, jwe_plaintext, jws_payload,
    jws_token_of, random_key_seed, x25519_key_ok, x25519_public_key, x25519_public_of,
    TIME_RANGE_NS,
};
use crate::numbers::dec_of;
use crate::pjv_delegation_credential::{
    spec_pjv_dc_json, spec_pjv_retained, PJVDelegationCredential, PJVDelegationCredentialRep,
};
use crate::pjv_delegator::{spec_pjv_delegator_json, PJVDelegator, PJVDelegatorRep};
use crate::pjv_signature::PJVSignature;
use crate::text::{chars_to_string, strs};
use crate::timing::{spec_verify_timings, verify_timings};
use crate::verifiable_credential::{EnvelopeRep, VerifiableCredential};
use crate::verifiable_presentation::{spec_vp_b_json, VerifiablePresentation};

verus! {

/// How deep a chain the verifier is willing to decrypt. A credential whose
/// nesting exceeds this bound is rejected rather than followed: the chain
/// check must terminate even if a malicious parent loops back on itself.
pub const MAX_CHAIN_DEPTH: u64 = 64;

/// The mathematical content of a scheme-B delegator entity.
pub struct PJVIssuerVerifierRep {
    pub id: Seq<char>,
    pub decryption_secret: Seq<u8>,
    pub signing_secret: Seq<u8>,
}

/// What checking the signature of a claim set yields: the issuer's
/// published key must exist and the signature must verify over the claim
/// set's canonical JSON.
pub open spec fn spec_verify_signature(
    dlt: Seq<(String, Vec<u8>)>,
    delegator: PJVDelegatorRep,
    signature: Seq<char>,
) -> Result<(), DelegationError> {
    match spec_lookup(dlt, delegator.iss) {
        None => Err(DelegationError::UnknownPresenter),
        Some(key) => {
            if ed25519_check(spec_pjv_delegator_json(delegator), signature, key@) {
                Ok(())
            } else {
                Err(DelegationError::JWSInvalid)
            }
        },
    }
}

/// The clock-independent admission checks of scheme-B issuance, in order:
/// a nonempty operation set and, under a parent, a published owner key.
pub open spec fn pjv_issue_precheck(
    operations: Seq<Seq<char>>,
    parent_present: bool,
    encryption_dlt: Seq<(String, Vec<u8>)>,
    owner: Seq<char>,
) -> Option<DelegationError> {
    if operations.len() == 0 {
        Some(DelegationError::EmptyOperations)
    } else if parent_present && spec_lookup(encryption_dlt, owner) is None {
        Some(DelegationError::UnknownOwner)
    } else {
        None
    }
}

/// The exact shape of a successfully issued scheme-B credential: the claim
/// set with the issuance and expiry times of the given clock reading (no
/// clamping against the parent in this scheme), the signature over its
/// canonical JSON, and the hierarchy - empty at the root, else a JWE that
/// the owner's matching secret decrypts to the parent's canonical JSON.
pub open spec fn pjv_issue_ok(
    issuer: PJVIssuerVerifierRep,
    now_ns: u128,
    context: Seq<Seq<char>>,
    credential_id: Seq<char>,
    valid_from: Seq<char>,
    delegatee_id: Seq<char>,
    validity_period_ns: u128,
    owner: Seq<char>,
    resource_uri: Seq<char>,
    operations: Seq<Seq<char>>,
    parent: Option<PJVDelegationCredentialRep>,
    encryption_dlt: Seq<(String, Vec<u8>)>,
    vc: EnvelopeRep<PJVDelegationCredentialRep>,
) -> bool {
    let delegator = PJVDelegatorRep {
        owner: owner,
        iss: issuer.id,
        sub: delegatee_id,
        iat: dec_of(now_ns as int),
        exp: dec_of((now_ns + validity_period_ns) as int),
        resource_uri: resource_uri,
        operations: operations,
        hierarchy: vc.credential.delegator.hierarchy,
    };
    &&& vc == (EnvelopeRep {
        context: context,
        credential_type: seq!["PJVDelegationCredential"@],
        id: credential_id,
        issuer: issuer.id,
        valid_from: valid_from,
        credential: PJVDelegationCredentialRep {
            delegator: delegator,
            signature: ed25519_sig_b64(spec_pjv_delegator_json(delegator), issuer.signing_secret),
        },
    })
    &&& ed25519_check(
        spec_pjv_delegator_json(delegator),
        vc.credential.signature,
        ed25519_public_of(issuer.signing_secret),
    )
    &&& (parent matches Some(p) ==> (forall|sk: Seq<u8>|
        x25519_public_of(sk) == spec_lookup(encryption_dlt, owner)->Some_0@ ==> jwe_plaintext(
            vc.credential.delegator.hierarchy,
            sk,
        ) == Some(spec_pjv_dc_json(p))))
    &&& (parent is None ==> vc.credential.delegator.hierarchy == Seq::<char>::empty())
}

/// What the public issuance entry point guarantees of a produced
/// credential: the full `pjv_issue_ok` shape for the clock reading the
/// call used.
pub open spec fn pjv_issue_wrapper_ok(
    issuer: PJVIssuerVerifierRep,
    context: Seq<Seq<char>>,
    credential_id: Seq<char>,
    valid_from: Seq<char>,
    delegatee_id: Seq<char>,
    validity_period_ns: u128,
    owner: Seq<char>,
    resource_uri: Seq<char>,
    operations: Seq<Seq<char>>,
    parent: Option<PJVDelegationCredentialRep>,
    encryption_dlt: Seq<(String, Vec<u8>)>,
    vc: EnvelopeRep<PJVDelegationCredentialRep>,
) -> bool {
    exists|now_ns: u128|
        now_ns < TIME_RANGE_NS && #[trigger] pjv_issue_ok(
            issuer,
            now_ns,
            context,
            credential_id,
            valid_from,
            delegatee_id,
            validity_period_ns,
            owner,
            resource_uri,
            operations,
            parent,
            encryption_dlt,
            vc,
        )
}

/// A scheme-B delegator: it can issue credentials, derive and sign
/// presentations, and verify chains addressed to it as the resource owner.
/// Construction publishes the X25519 encryption key and the Ed25519
/// verification key in the two directories.
pub struct PJVIssuerVerifier {
    id: String,
    decryption_secret: Vec<u8>,
    signing_secret: Vec<u8>,
}

impl View for PJVIssuerVerifier {
    type V = PJVIssuerVerifierRep;

    closed spec fn view(&self) -> PJVIssuerVerifierRep {
        PJVIssuerVerifierRep {
            id: self.id@,
            decryption_secret: self.decryption_secret@,
            signing_secret: self.signing_secret@,
        }
    }
}

impl PJVIssuerVerifier {
    /// Both secrets have the 32-byte curve key length.
    pub open spec fn wf(&self) -> bool {
        self@.decryption_secret.len() == 32 && self@.signing_secret.len() == 32
    }

    pub fn id(&self) -> (r: &String)
        ensures
            r@ == self@.id,
    {
        &self.id
    }

    /// Generate fresh keys for `id` and publish the encryption and
    /// verification keys in the two directories.
    pub fn new(
        id: String,
        encryption_dlt: &mut DltSim<Vec<u8>>,
        verification_dlt: &mut DltSim<Vec<u8>>,
    ) -> (r: Result<PJVIssuerVerifier, DelegationError>)
        ensures
            r matches Ok(d) ==> {
                &&& d.wf()
                &&& d@.id == id@
                &&& final(encryption_dlt)@.len() == old(encryption_dlt)@.len() + 1
                &&& final(encryption_dlt)@.drop_last() == old(encryption_dlt)@
                &&& final(encryption_dlt)@.last().0@ == id@
                &&& final(encryption_dlt)@.last().1@ == x25519_public_of(d@.decryption_secret)
                &&& x25519_key_ok(final(encryption_dlt)@.last().1@)
                &&& final(verification_dlt)@.len() == old(verification_dlt)@.len() + 1
                &&& final(verification_dlt)@.drop_last() == old(verification_dlt)@
                &&& final(verification_dlt)@.last().0@ == id@
                &&& final(verification_dlt)@.last().1@ == ed25519_public_of(d@.signing_secret)
            },
            r is Ok,
    {
        let signing_secret = random_key_seed();
        let verification_key = ed25519_public_key(&signing_secret);
        verification_dlt.insert(id.clone(), verification_key);
        let decryption_secret = random_key_seed();
        let encryption_key = x25519_public_key(&decryption_secret);
        encryption_dlt.insert(id.clone(), encryption_key);
        proof {
            assert(final(encryption_dlt)@.drop_last() =~= old(encryption_dlt)@);
            assert(final(verification_dlt)@.drop_last() =~= old(verification_dlt)@);
        }
        Ok(PJVIssuerVerifier { id, decryption_secret, signing_secret })
    }

    /// Sign the canonical JSON of a claim set with this delegator's key.
    fn sign_delegator(&self, delegator: &PJVDelegator) -> (r: Result<PJVSignature, DelegationError>)
        requires
            self.wf(),
        ensures
            r matches Ok(s) && s@ == ed25519_sig_b64(
                spec_pjv_delegator_json(delegator@),
                self@.signing_secret,
            ) && ed25519_check(
                spec_pjv_delegator_json(delegator@),
                s@,
                ed25519_public_of(self@.signing_secret),
            ),
    {
        let serialized = match delegator.to_string() {
            Ok(s) => s,
            Err(e) => {
                return Err(e);
            },
        };
        let signature = ed25519_sign_b64(serialized.as_str(), &self.signing_secret);
        Ok(PJVSignature::new(signature))
    }

    /// Issue a delegation credential at the current clock reading.
    pub fn issue_delegation_verifiable_credential(
        &self,
        context: Vec<String>,
        credential_id: String,
        valid_from: String,
        delegatee_id: String,
        validity_period_ns: u128,
        owner: String,
        resource_uri: String,
        operations: Vec<String>,
        optional_issuer_vc: Option<VerifiableCredential<PJVDelegationCredential>>,
        encryption_dlt: &DltSim<Vec<u8>>,
    ) -> (r: Result<VerifiableCredential<PJVDelegationCredential>, DelegationError>)
        requires
            self.wf(),
            validity_period_ns < TIME_RANGE_NS,
        ensures
            pjv_issue_precheck(
                strs(operations@),
                optional_issuer_vc is Some,
                encryption_dlt@,
                owner@,
            ) matches Some(e) ==> (r matches Err(e2) && e2 == e),
            operations@.len() > 0 && optional_issuer_vc is None ==> r is Ok,
            operations@.len() > 0 && optional_issuer_vc is Some && (spec_lookup(
                encryption_dlt@,
                owner@,
            ) matches Some(key) && x25519_key_ok(key@)) ==> r is Ok,
            r matches Ok(vc) ==> pjv_issue_wrapper_ok(
                self@,
                strs(context@),
                credential_id@,
                valid_from@,
                delegatee_id@,
                validity_period_ns,
                owner@,
                resource_uri@,
                strs(operations@),
                match optional_issuer_vc {
                    Some(parent) => Some(parent@.credential),
                    None => None,
                },
                encryption_dlt@,
                vc@,
            ),
            r matches Ok(vc) ==> vc@.issuer == self@.id && vc@.credential.delegator.operations
                == strs(operations@),
    {
        let now_ns = current_time_ns();
        let r = self.issue_at(
            now_ns,
            context,
            credential_id,
            valid_from,
            delegatee_id,
            validity_period_ns,
            owner,
            resource_uri,
            operations,
            optional_issuer_vc,
            encryption_dlt,
        );
        proof {
            if r is Ok {
                assert(pjv_issue_ok(
                    self@,
                    now_ns,
                    strs(context@),
                    credential_id@,
                    valid_from@,
                    delegatee_id@,
                    validity_period_ns,
                    owner@,
                    resource_uri@,
                    strs(operations@),
                    match optional_issuer_vc {
                        Some(parent) => Some(parent@.credential),
                        None => None,
                    },
                    encryption_dlt@,
                    (r->Ok_0)@,
                ));
            }
        }
        r
    }

    /// Issue a delegation credential as of the clock reading `now_ns`. The
    /// hierarchy field is empty for a root credential; with a parent it is
    /// the parent credential's canonical JSON encrypted for the owner. No
    /// expiry clamping against the parent happens in this scheme.
    pub fn issue_at(
        &self,
        now_ns: u128,
        context: Vec<String>,
        credential_id: String,
        valid_from: String,
        delegatee_id: String,
        validity_period_ns: u128,
        owner: String,
        resource_uri: String,
        operations: Vec<String>,
        optional_issuer_vc: Option<VerifiableCredential<PJVDelegationCredential>>,
        encryption_dlt: &DltSim<Vec<u8>>,
    ) -> (r: Result<VerifiableCredential<PJVDelegationCredential>, DelegationError>)
        requires
            self.wf(),
            now_ns < TIME_RANGE_NS,
            validity_period_ns < TIME_RANGE_NS,
        ensures
            operations@.len() == 0 <==> r == Err::<
                VerifiableCredential<PJVDelegationCredential>,
                DelegationError,
            >(DelegationError::EmptyOperations),
            r == Err::<VerifiableCredential<PJVDelegationCredential>, DelegationError>(
                DelegationError::UnknownOwner,
            ) <==> operations@.len() > 0 && optional_issuer_vc is Some && spec_lookup(
                encryption_dlt@,
                owner@,
            ) is None,
            operations@.len() > 0 && optional_issuer_vc is None ==> r is Ok,
            operations@.len() > 0 && optional_issuer_vc is Some && (spec_lookup(
                encryption_dlt@,
                owner@,
            ) matches Some(key) && x25519_key_ok(key@)) ==> r is Ok,
            r matches Ok(vc) ==> pjv_issue_ok(
                self@,
                now_ns,
                strs(context@),
                credential_id@,
                valid_from@,
                delegatee_id@,
                validity_period_ns,
                owner@,
                resource_uri@,
                strs(operations@),
                match optional_issuer_vc {
                    Some(parent) => Some(parent@.credential),
                    None => None,
                },
                encryption_dlt@,
                vc@,
            ),
    {
        if operations.len() == 0 {
            return Err(DelegationError::EmptyOperations);
        }
        let numeric_exp: u128 = now_ns + validity_period_ns;
        let iat = chars_to_string(&crate::numbers::u128_to_dec(now_ns));
        let exp = chars_to_string(&crate::numbers::u128_to_dec(numeric_exp));

        let hierarchy: String = match &optional_issuer_vc {
            None => String::new(),
            Some(parent_vc) => {
                let owner_key = match encryption_dlt.get(&owner) {
                    None => {
                        return Err(DelegationError::UnknownOwner);
                    },
                    Some(k) => k,
                };
                let serialized = match parent_vc.credential().to_string() {
                    Ok(s) => s,
                    Err(e) => {
                        return Err(e);
                    },
                };
                match jwe_encrypt(serialized.as_str(), owner_key) {
                    Ok(token) => token,
                    Err(e) => {
                        return Err(e);
                    },
                }
            },
        };
        let delegator = PJVDelegator::new(
            owner,
            self.id.clone(),
            delegatee_id,
            iat,
            exp,
            resource_uri,
            operations,
            hierarchy,
        );
        let signature = match self.sign_delegator(&delegator) {
            Ok(s) => s,
            Err(e) => {
                return Err(e);
            },
        };
        let dc = match PJVDelegationCredential::new(delegator, signature) {
            Ok(dc) => dc,
            Err(_) => { return vstd::pervasive::unreached(); },
        };
        let vc = VerifiableCredential::<PJVDelegationCredential>::new(
            context,
            credential_id,
            self.id.clone(),
            valid_from,
            dc,
        );
        Ok(vc)
    }

    /// Derive a presentation disclosing only the given operations, re-sign
    /// the pruned claim set, and sign the whole presentation as a compact
    /// JWS.
    pub fn issue_delegation_verifiable_presentation(
        &self,
        vc: VerifiableCredential<PJVDelegationCredential>,
        disclosed_permissions: Vec<String>,
    ) -> (r: Result<String, DelegationError>)
        requires
            self.wf(),
        ensures
            ({
                let pruned = spec_pjv_retained(vc@.credential, strs(disclosed_permissions@));
                let resigned = PJVDelegationCredentialRep {
                    delegator: pruned.delegator,
                    signature: ed25519_sig_b64(
                        spec_pjv_delegator_json(pruned.delegator),
                        self@.signing_secret,
                    ),
                };
                let vp = EnvelopeRep {
                    context: vc@.context,
                    credential_type: vc@.credential_type,
                    id: vc@.id,
                    issuer: vc@.issuer,
                    valid_from: vc@.valid_from,
                    credential: resigned,
                };
                &&& (r is Ok <==> pruned.delegator.operations.len() > 0
                    && pruned.delegator.resource_uri.len() > 0)
                &&& (r matches Err(e) ==> e == DelegationError::EmptyOperations && (
                pruned.delegator.operations.len() == 0 || pruned.delegator.resource_uri.len()
                    == 0))
                &&& (r matches Ok(t) ==> pruned.delegator.operations.len() > 0 && t@
                    == jws_token_of(spec_vp_b_json(vp), self@.signing_secret) && jws_payload(
                    t@,
                    ed25519_public_of(self@.signing_secret),
                ) == Some(spec_vp_b_json(vp)))
            }),
    {
        let ghost pruned = spec_pjv_retained(vc@.credential, strs(disclosed_permissions@));
        let ghost vc_view = vc@;
        let mut vp = match VerifiablePresentation::<
            PJVDelegationCredential,
        >::from_verifiable_credential(vc, disclosed_permissions) {
            Ok(vp) => vp,
            Err(e) => {
                return Err(e);
            },
        };
        let delegator = vp.credential().delegator().clone();
        let signature = match self.sign_delegator(&delegator) {
            Ok(s) => s,
            Err(e) => {
                return Err(e);
            },
        };
        vp.replace_credential_signature(signature);
        vp.to_signed_jwt(&self.signing_secret)
    }

    /// Check the Ed25519 signature of a claim set against its issuer's
    /// published verification key.
    fn verify_signature(
        &self,
        delegator: &PJVDelegator,
        signature: &PJVSignature,
        verification_dlt: &DltSim<Vec<u8>>,
    ) -> (r: Result<(), DelegationError>)
        ensures
            r == spec_verify_signature(verification_dlt@, delegator@, signature@),
    {
        let key = match verification_dlt.get(delegator.iss()) {
            None => {
                return Err(DelegationError::UnknownPresenter);
            },
            Some(k) => k,
        };
        let serialized = match delegator.to_string() {
            Ok(s) => s,
            Err(e) => {
                return Err(e);
            },
        };
        if ed25519_verify_b64(serialized.as_str(), signature.signature(), key) {
            Ok(())
        } else {
            Err(DelegationError::JWSInvalid)
        }
    }

    /// Verify a delegation credential as of `now_ns`, following the
    /// encrypted hierarchy recursively for at most `depth_budget` steps.
    ///
    /// Each layer's timings and signature are checked; a root layer must
    /// have this verifier as both owner and issuer; a non-root layer must
    /// decrypt under this verifier's key, its operations must all be
    /// inherited from the decrypted parent, and its issuer must be the
    /// parent's subject.
    fn verify_delegation_credential(
        &self,
        delegation_credential: &PJVDelegationCredential,
        now_ns: u128,
        depth_budget: u64,
        verification_dlt: &DltSim<Vec<u8>>,
    ) -> (r: Result<PJVDelegator, DelegationError>)
        requires
            self.wf(),
        ensures
            ({
                let dc = delegation_credential@;
                &&& (r matches Ok(d) ==> {
                    &&& d@ == dc.delegator
                    &&& spec_verify_timings(now_ns, dc.delegator.iat, dc.delegator.exp) is Ok
                    &&& spec_verify_signature(verification_dlt@, dc.delegator, dc.signature) is Ok
                    &&& (dc.delegator.hierarchy.len() == 0 ==> self@.id == dc.delegator.owner
                        && self@.id == dc.delegator.iss)
                    &&& (dc.delegator.hierarchy.len() > 0 ==> depth_budget > 0 && jwe_plaintext(
                        dc.delegator.hierarchy,
                        self@.decryption_secret,
                    ) is Some)
                })
                &&& (spec_verify_timings(now_ns, dc.delegator.iat, dc.delegator.exp) matches Err(
                    e,
                ) ==> r == Err::<PJVDelegator, DelegationError>(e))
                &&& (spec_verify_timings(now_ns, dc.delegator.iat, dc.delegator.exp) is Ok
                    && spec_verify_signature(verification_dlt@, dc.delegator, dc.signature) is Err
                    ==> r == Err::<PJVDelegator, DelegationError>(
                    spec_verify_signature(
                        verification_dlt@,
                        dc.delegator,
                        dc.signature,
                    )->Err_0,
                ))
                &&& (spec_verify_timings(now_ns, dc.delegator.iat, dc.delegator.exp) is Ok
                    && spec_verify_signature(verification_dlt@, dc.delegator, dc.signature) is Ok
                    ==> {
                    &&& (dc.delegator.hierarchy.len() == 0 ==> (if self@.id == dc.delegator.owner
                        && self@.id == dc.delegator.iss {
                        r matches Ok(d) && d@ == dc.delegator
                    } else {
                        r == Err::<PJVDelegator, DelegationError>(DelegationError::InvalidRoot)
                    }))
                    &&& (dc.delegator.hierarchy.len() > 0 && depth_budget == 0 ==> r == Err::<
                        PJVDelegator,
                        DelegationError,
                    >(DelegationError::ChainBroken))
                    &&& (dc.delegator.hierarchy.len() > 0 && depth_budget > 0 && jwe_plaintext(
                        dc.delegator.hierarchy,
                        self@.decryption_secret,
                    ) is None ==> r == Err::<PJVDelegator, DelegationError>(
                        DelegationError::JWEInvalid,
                    ))
                })
            }),
        decreases depth_budget,
    {
        let delegator = delegation_credential.delegator();
        let signature = delegation_credential.signature();

        match verify_timings(now_ns, delegator.iat(), delegator.exp()) {
            Ok(()) => {},
            Err(e) => {
                return Err(e);
            },
        }
        match self.verify_signature(delegator, signature, verification_dlt) {
            Ok(()) => {},
            Err(e) => {
                return Err(e);
            },
        }

        if delegator.hierarchy().as_str().is_empty() {
            // Only the resource owner itself may stand at the root.
            if !(*delegator.owner() == self.id) || !(*delegator.iss() == self.id) {
                return Err(DelegationError::InvalidRoot);
            }
            return Ok(delegator.clone());
        }
        if depth_budget == 0 {
            return Err(DelegationError::ChainBroken);
        }

        let plaintext = match jwe_decrypt(delegator.hierarchy().as_str(), &self.decryption_secret) {
            Ok(p) => p,
            Err(e) => {
                return Err(e);
            },
        };
        let parent_dc = match PJVDelegationCredential::from_string(&plaintext) {
            Ok(dc) => dc,
            Err(e) => {
                return Err(e);
            },
        };
        let parent = match self.verify_delegation_credential(
            &parent_dc,
            now_ns,
            depth_budget - 1,
            verification_dlt,
        ) {
            Ok(p) => p,
            Err(e) => {
                return Err(e);
            },
        };

        let operations = delegator.operations();
        let parent_operations = parent.operations();
        let mut i: usize = 0;
        #[verifier::loop_isolation(false)]
        while i < operations.len()
            invariant
                0 <= i <= operations@.len(),
            decreases operations@.len() - i,
        {
            if !crate::retention::contains_string(parent_operations, &operations[i]) {
                return Err(DelegationError::OperationNotInherited);
            }
            i = i + 1;
        }
        if !(*delegator.iss() == *parent.sub()) {
            return Err(DelegationError::ChainBroken);
        }
        Ok(delegator.clone())
    }

    /// Look the presenter's verification key up, verify and decode the
    /// compact JWS, and verify the credential chain it carries at the
    /// current clock reading.
    pub fn verify_verifiable_presentation(
        &self,
        presenter_id: String,
        signed_jwt: String,
        verification_dlt: &DltSim<Vec<u8>>,
    ) -> (r: Result<(), DelegationError>)
        requires
            self.wf(),
        ensures
            r is Ok ==> (spec_lookup(verification_dlt@, presenter_id@) matches Some(key)
                && jws_payload(signed_jwt@, key@) is Some),
            spec_lookup(verification_dlt@, presenter_id@) is None ==> r == Err::<
                (),
                DelegationError,
            >(DelegationError::UnknownPresenter),
            (spec_lookup(verification_dlt@, presenter_id@) matches Some(key) && jws_payload(
                signed_jwt@,
                key@,
            ) is None) ==> r == Err::<(), DelegationError>(DelegationError::JWSInvalid),
            r is Ok ==> exists|now_ns: u128, dc: PJVDelegationCredentialRep|
                #![trigger spec_verify_timings(now_ns, dc.delegator.iat, dc.delegator.exp)]
                spec_verify_timings(now_ns, dc.delegator.iat, dc.delegator.exp) is Ok
                    && spec_verify_signature(verification_dlt@, dc.delegator, dc.signature) is Ok
                    && (dc.delegator.hierarchy.len() == 0 ==> self@.id == dc.delegator.owner
                    && self@.id == dc.delegator.iss),
    {
        let key = match verification_dlt.get(&presenter_id) {
            None => {
                return Err(DelegationError::UnknownPresenter);
            },
            Some(k) => k.clone(),
        };
        let vp = match VerifiablePresentation::<PJVDelegationCredential>::from_signed_jwt(
            &signed_jwt,
            &key,
        ) {
            Ok(vp) => vp,
            Err(e) => {
                return Err(e);
            },
        };
        let now_ns = current_time_ns();
        match self.verify_delegation_credential(
            vp.credential(),
            now_ns,
            MAX_CHAIN_DEPTH,
            verification_dlt,
        ) {
            Ok(_) => {
                proof {
                    assert(spec_verify_timings(
                        now_ns,
                        vp@.credential.delegator.iat,
                        vp@.credential.delegator.exp,
                    ) is Ok);
                }
                Ok(())
            },
            Err(e) => Err(e),
        }
    }
}

} // verus!
