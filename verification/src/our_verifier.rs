use vstd::prelude::*;

use crate::accumulator_utils::{acc_decodes, params_decodes, pk_decodes, scalar_of, to_scalar};
use crate::accumulator_verifier::{
    spec_verify_witnesses, AccumulatorVerifier, AccumulatorVerifierRep,
};
use crate::dlt_sim::{spec_lookup, DLTSimAccEntry, DltSim};
use crate::errors::DelegationError;
use crate::jose::{current_time_ns, jws_payload};
use crate::our_delegation::OurDelegation;
use crate::our_delegation_credential::OurDelegationCredential;
use crate::verifiable_credential::EnvelopeRep;
use crate::our_delegation_credential::OurDelegationCredentialRep;
use crate::our_delegator::OurDelegatorRep;
use crate::text::strs;
use crate::timing::{spec_verify_timings, verify_timings};
use crate::verifiable_presentation::VerifiablePresentation;

verus! {

/// What verifying one delegation record yields: timings first, then the
/// issuer's published accumulator entry, then the three metadata witnesses
/// over the re-derived scalars, then the witnesses of the presentation's
/// permissions.
pub open spec fn spec_verify_delegation(
    dlt: Seq<(String, DLTSimAccEntry)>,
    delegatee_id: Seq<char>,
    accumulator_value: Seq<char>,
    iat: Seq<char>,
    exp: Seq<char>,
    metadata_witnesses: Seq<Seq<char>>,
    permission_witnesses: Seq<Seq<char>>,
    issuer: Seq<char>,
    permissions: Seq<Seq<char>>,
    now_ns: u128,
) -> Result<(), DelegationError> {
    if spec_verify_timings(now_ns, iat, exp) is Err {
        spec_verify_timings(now_ns, iat, exp)
    } else {
        match spec_lookup(dlt, issuer) {
            None => Err(DelegationError::UnknownPresenter),
            Some(entry) => {
                if !(acc_decodes(accumulator_value) && pk_decodes(entry.public_key@)
                    && params_decodes(entry.setup_params@)) {
                    Err(DelegationError::Deserialize)
                } else {
                    let v = AccumulatorVerifierRep {
                        value: accumulator_value,
                        public_key: entry.public_key@,
                        params: entry.setup_params@,
                    };
                    let metadata = seq![scalar_of(delegatee_id), scalar_of(iat), scalar_of(exp)];
                    if spec_verify_witnesses(v, metadata_witnesses, metadata) is Err {
                        spec_verify_witnesses(v, metadata_witnesses, metadata)
                    } else {
                        spec_verify_witnesses(
                            v,
                            permission_witnesses,
                            permissions.map_values(|p: Seq<char>| scalar_of(p)),
                        )
                    }
                }
            },
        }
    }
}

/// What walking the hierarchy from its tail down to its head yields: each
/// entry's subject must equal the issuer above it, each entry must verify
/// under its own issuer's published entry, and the issuer moves one step
/// down the chain.
pub open spec fn spec_verify_chain(
    dlt: Seq<(String, DLTSimAccEntry)>,
    hierarchy: Seq<OurDelegatorRep>,
    permissions: Seq<Seq<char>>,
    now_ns: u128,
    current_issuer: Seq<char>,
    k: int,
) -> Result<Seq<char>, DelegationError>
    decreases k,
    when 0 <= k <= hierarchy.len()
{
    if k == 0 {
        Ok(current_issuer)
    } else {
        let d = hierarchy[k - 1];
        if d.delegatee_id != current_issuer {
            Err(DelegationError::ChainBroken)
        } else {
            match spec_verify_delegation(
                dlt,
                d.delegatee_id,
                d.accumulator_value,
                d.iat,
                d.exp,
                d.metadata_witnesses,
                d.permission_witnesses,
                d.id,
                permissions,
                now_ns,
            ) {
                Err(e) => Err(e),
                Ok(()) => spec_verify_chain(dlt, hierarchy, permissions, now_ns, d.id, k - 1),
            }
        }
    }
}

/// What verifying a parsed presentation yields: the hierarchy is walked
/// from the immediate parent back to the root, then the outer credential is
/// checked against the issuer the walk ended at.
pub open spec fn spec_verify_presentation(
    dlt: Seq<(String, DLTSimAccEntry)>,
    vp: crate::verifiable_credential::EnvelopeRep<
        crate::our_delegation_credential::OurDelegationCredentialRep,
    >,
    now_ns: u128,
) -> Result<(), DelegationError> {
    let dc = vp.credential;
    match spec_verify_chain(
        dlt,
        dc.hierarchy,
        dc.permissions,
        now_ns,
        vp.issuer,
        dc.hierarchy.len() as int,
    ) {
        Err(e) => Err(e),
        Ok(_) => spec_verify_delegation(
            dlt,
            dc.delegatee_id,
            dc.accumulator_value,
            dc.iat,
            dc.exp,
            dc.metadata_witnesses,
            dc.permission_witnesses,
            vp.issuer,
            dc.permissions,
            now_ns,
        ),
    }
}

/// A scheme-A verifier: it owns a snapshot of the two directories, taken
/// once every delegator has published its key material.
pub struct OurVerifier {
    accumulator_dlt: DltSim<DLTSimAccEntry>,
    verification_dlt: DltSim<Vec<u8>>,
}

impl OurVerifier {
    /// The directory entries the verifier trusts.
    pub closed spec fn acc_dlt(&self) -> Seq<(String, DLTSimAccEntry)> {
        self.accumulator_dlt@
    }

    /// The verification keys the verifier trusts.
    pub closed spec fn ver_dlt(&self) -> Seq<(String, Vec<u8>)> {
        self.verification_dlt@
    }

    pub fn new(
        accumulator_dlt: DltSim<DLTSimAccEntry>,
        verification_dlt: DltSim<Vec<u8>>,
    ) -> (r: Result<OurVerifier, DelegationError>)
        ensures
            r matches Ok(v) && v.acc_dlt() == accumulator_dlt@ && v.ver_dlt()
                == verification_dlt@,
    {
        Ok(OurVerifier { accumulator_dlt, verification_dlt })
    }

    /// Verify one delegation record against its issuer's published entry.
    fn verify_delegation<D: OurDelegation>(
        &self,
        delegation: &D,
        issuer: &String,
        permissions: &Vec<String>,
        now_ns: u128,
        parallel: bool,
    ) -> (r: Result<(), DelegationError>)
        ensures
            r == spec_verify_delegation(
                self.acc_dlt(),
                delegation.s_delegatee_id(),
                delegation.s_accumulator_value(),
                delegation.s_iat(),
                delegation.s_exp(),
                delegation.s_metadata_witnesses(),
                delegation.s_permission_witnesses(),
                issuer@,
                strs(permissions@),
                now_ns,
            ),
    {
        match verify_timings(now_ns, delegation.iat(), delegation.exp()) {
            Ok(()) => {},
            Err(e) => {
                return Err(e);
            },
        }
        let entry = match self.accumulator_dlt.get(issuer) {
            None => {
                return Err(DelegationError::UnknownPresenter);
            },
            Some(entry) => entry.clone(),
        };
        let verifier = match AccumulatorVerifier::new(
            delegation.accumulator_value().clone(),
            entry.public_key,
            entry.setup_params,
        ) {
            Ok(v) => v,
            Err(e) => {
                return Err(e);
            },
        };
        let mut metadata: Vec<String> = Vec::new();
        metadata.push(to_scalar(delegation.delegatee_id().as_str()));
        metadata.push(to_scalar(delegation.iat().as_str()));
        metadata.push(to_scalar(delegation.exp().as_str()));
        proof {
            assert(strs(metadata@) =~= seq![
                scalar_of(delegation.s_delegatee_id()),
                scalar_of(delegation.s_iat()),
                scalar_of(delegation.s_exp()),
            ]);
        }
        match verifier.verify_accumulator_witnesses(
            delegation.metadata_witnesses().clone(),
            metadata,
            parallel,
        ) {
            Ok(()) => {},
            Err(e) => {
                return Err(e);
            },
        }
        let mut permission_scalars: Vec<String> = Vec::new();
        let ghost ps = strs(permissions@).map_values(|p: Seq<char>| scalar_of(p));
        let mut i: usize = 0;
        #[verifier::loop_isolation(false)]
        while i < permissions.len()
            invariant
                0 <= i <= permissions@.len(),
                permission_scalars@.len() == i,
                forall|t: int| 0 <= t < i ==> strs(permission_scalars@)[t] == ps[t],
            decreases permissions@.len() - i,
        {
            let scalar = to_scalar(permissions[i].as_str());
            proof {
                assert(strs(permissions@)[i as int] == permissions@[i as int]@);
                assert(scalar@ == ps[i as int]);
            }
            permission_scalars.push(scalar);
            i = i + 1;
        }
        proof {
            assert(strs(permission_scalars@) =~= ps);
        }
        verifier.verify_accumulator_witnesses(
            delegation.permission_witnesses().clone(),
            permission_scalars,
            parallel,
        )
    }

    /// Verify a parsed presentation at the clock reading `now_ns`: walk the
    /// hierarchy from the immediate parent down to the root, checking each
    /// record's timings and witnesses and the subject-to-issuer chain, then
    /// check the outer credential itself.
    #[verifier::loop_isolation(false)]
    pub fn verify_presentation_at(
        &self,
        vp: &VerifiablePresentation<OurDelegationCredential>,
        now_ns: u128,
        parallel: bool,
    ) -> (r: Result<(), DelegationError>)
        ensures
            r == spec_verify_presentation(self.acc_dlt(), vp@, now_ns),
    {
        let dc = vp.credential();
        let permissions = dc.permissions();
        let hierarchy = dc.hierarchy();
        let ghost hreps = crate::our_delegation_credential::dreps(hierarchy@);
        let mut current_issuer: String = vp.issuer().clone();
        let mut k: usize = hierarchy.len();
        while k > 0
            invariant
                0 <= k <= hierarchy@.len(),
                spec_verify_chain(
                    self.acc_dlt(),
                    hreps,
                    strs(permissions@),
                    now_ns,
                    vp@.issuer,
                    hreps.len() as int,
                ) == spec_verify_chain(
                    self.acc_dlt(),
                    hreps,
                    strs(permissions@),
                    now_ns,
                    current_issuer@,
                    k as int,
                ),
            decreases k,
        {
            let entry = &hierarchy[k - 1];
            proof {
                assert(entry@ == hreps[k - 1]);
            }
            if !(*entry.delegatee_id() == current_issuer) {
                proof {
                    assert(spec_verify_chain(
                        self.acc_dlt(),
                        hreps,
                        strs(permissions@),
                        now_ns,
                        current_issuer@,
                        k as int,
                    ) == Err::<Seq<char>, DelegationError>(DelegationError::ChainBroken));
                }
                return Err(DelegationError::ChainBroken);
            }
            match self.verify_delegation(entry, entry.id(), permissions, now_ns, parallel) {
                Ok(()) => {},
                Err(e) => {
                    proof {
                        assert(spec_verify_chain(
                            self.acc_dlt(),
                            hreps,
                            strs(permissions@),
                            now_ns,
                            current_issuer@,
                            k as int,
                        ) == Err::<Seq<char>, DelegationError>(e));
                    }
                    return Err(e);
                },
            }
            proof {
                assert(spec_verify_chain(
                    self.acc_dlt(),
                    hreps,
                    strs(permissions@),
                    now_ns,
                    current_issuer@,
                    k as int,
                ) == spec_verify_chain(
                    self.acc_dlt(),
                    hreps,
                    strs(permissions@),
                    now_ns,
                    hreps[k - 1].id,
                    k - 1,
                ));
            }
            current_issuer = entry.id().clone();
            k = k - 1;
        }
        proof {
            assert(spec_verify_chain(
                self.acc_dlt(),
                hreps,
                strs(permissions@),
                now_ns,
                current_issuer@,
                0,
            ) == Ok::<Seq<char>, DelegationError>(current_issuer@));
        }
        self.verify_delegation(dc, vp.issuer(), permissions, now_ns, parallel)
    }

    /// Look the presenter's verification key up, verify and decode the
    /// compact JWS, and verify the presentation it carries at the current
    /// clock reading.
    pub fn verify_verifiable_presentation(
        &self,
        presenter_id: String,
        signed_jwt: String,
        parallel: bool,
    ) -> (r: Result<(), DelegationError>)
        ensures
            r is Ok ==> (spec_lookup(self.ver_dlt(), presenter_id@) matches Some(key)
                && jws_payload(signed_jwt@, key@) is Some),
            spec_lookup(self.ver_dlt(), presenter_id@) is None ==> r == Err::<
                (),
                DelegationError,
            >(DelegationError::UnknownPresenter),
            (spec_lookup(self.ver_dlt(), presenter_id@) matches Some(key) && jws_payload(
                signed_jwt@,
                key@,
            ) is None) ==> r == Err::<(), DelegationError>(DelegationError::JWSInvalid),
            r is Ok ==> exists|now_ns: u128, vp: EnvelopeRep<OurDelegationCredentialRep>|
                #[trigger] spec_verify_presentation(self.acc_dlt(), vp, now_ns) is Ok,
    {
        let key = match self.verification_dlt.get(&presenter_id) {
            None => {
                return Err(DelegationError::UnknownPresenter);
            },
            Some(k) => k.clone(),
        };
        let vp = match VerifiablePresentation::<OurDelegationCredential>::from_signed_jwt(
            &signed_jwt,
            &key,
        ) {
            Ok(vp) => vp,
            Err(e) => {
                return Err(e);
            },
        };
        let now_ns = current_time_ns();
        match self.verify_presentation_at(&vp, now_ns, parallel) {
            Ok(()) => {
                proof {
                    assert(spec_verify_presentation(self.acc_dlt(), vp@, now_ns) is Ok);
                }
                Ok(())
            },
            Err(e) => Err(e),
        }
    }
}

} // verus!
