use vstd::prelude::*;

use crate::accumulator_manager::{
    acc_after_add_seq, batch_add_error, witness_batch_error, AccumulatorManager,
};
use crate::accumulator_utils::{
    acc_after_add, acc_canonical, acc_decodes, acc_init_of, acc_membership_check, acc_pk_of,
    acc_removable, acc_witness_of, accumulator_public_key, check_removable,
    generate_accumulator_secret, generate_setup_params, params_decodes, scalar_of, sk_decodes,
    to_scalar,
};
use crate::dlt_sim::{DLTSimAccEntry, DltSim};
use crate::errors::DelegationError;
use crate::jose::{
    current_time_ns, ed25519_public_key, ed25519_public_of, random_key_seed, TIME_RANGE_NS,
};
use crate::numbers::{dec_of, spec_parse_dec, u128_to_dec};
use crate::our_delegation::OurDelegation;
use crate::our_delegation_credential::{
    dreps, OurDelegationCredential, OurDelegationCredentialRep,
};
use crate::our_delegator::{OurDelegator, OurDelegatorRep};
use crate::retention::{contains_string, filter_kept, kept, seq_contains};
use crate::text::{chars_to_string, strs};
use crate::verifiable_credential::{EnvelopeRep, VerifiableCredential};
use crate::verifiable_presentation::VerifiablePresentation;

verus! {

/// The mathematical content of a scheme-A issuer.
pub struct OurIssuerRep {
    pub id: Seq<char>,
    pub params: Seq<char>,
    pub secret_key: Seq<char>,
    pub public_key: Seq<char>,
    pub signing_secret: Seq<u8>,
}

/// The first problem accumulating the claims runs into: some two claims
/// hash to the same scalar. The permissions go in as a batch, then the
/// delegatee id, issuance time and expiry singly.
pub open spec fn accumulate_error(
    pscalars: Seq<Seq<char>>,
    s_did: Seq<char>,
    s_iat: Seq<char>,
    s_exp: Seq<char>,
) -> Option<DelegationError> {
    if batch_add_error(Seq::<Seq<char>>::empty(), pscalars, 0) is Some {
        batch_add_error(Seq::<Seq<char>>::empty(), pscalars, 0)
    } else if seq_contains(pscalars, s_did) {
        Some(DelegationError::AlreadyPresent)
    } else if seq_contains(pscalars.push(s_did), s_iat) {
        Some(DelegationError::AlreadyPresent)
    } else if seq_contains(pscalars.push(s_did).push(s_iat), s_exp) {
        Some(DelegationError::AlreadyPresent)
    } else {
        None
    }
}

/// The accumulator value once every claim of the credential is in: the
/// permission scalars in order, then the three metadata scalars.
pub open spec fn issue_final_value(
    issuer: OurIssuerRep,
    pscalars: Seq<Seq<char>>,
    s_did: Seq<char>,
    s_iat: Seq<char>,
    s_exp: Seq<char>,
) -> Seq<char> {
    acc_after_add(
        acc_after_add(
            acc_after_add(
                acc_after_add_seq(acc_init_of(issuer.params), pscalars, issuer.secret_key),
                s_did,
                issuer.secret_key,
            ),
            s_iat,
            issuer.secret_key,
        ),
        s_exp,
        issuer.secret_key,
    )
}

/// The expiry clamped against the hierarchy entries from position `i` on,
/// starting from `acc`; meaningful when every entry's expiry parses.
pub open spec fn clamped_exp(h: Seq<OurDelegatorRep>, acc: u128, i: int) -> u128
    decreases h.len() - i,
    when 0 <= i <= h.len()
{
    if i >= h.len() {
        acc
    } else {
        let e = spec_parse_dec(h[i].exp);
        let next = if e is Some && e->Some_0 < acc {
            e->Some_0
        } else {
            acc
        };
        clamped_exp(h, next, i + 1)
    }
}

/// Whether every hierarchy entry's expiry parses as a decimal.
pub open spec fn hierarchy_exps_parse(h: Seq<OurDelegatorRep>) -> bool {
    forall|k: int| 0 <= k < h.len() ==> spec_parse_dec(#[trigger] h[k].exp) is Some
}

/// Whether every requested permission is granted by the parent.
pub open spec fn perms_subset(req: Seq<Seq<char>>, avail: Seq<Seq<char>>) -> bool {
    forall|i: int| 0 <= i < req.len() ==> seq_contains(avail, #[trigger] req[i])
}

/// The parent's witness lists pruned to the requested permissions: left
/// alone when the counts already agree, filtered in index lock-step with
/// the parent's permissions otherwise.
pub open spec fn pruned_witnesses(
    values: Seq<Seq<char>>,
    parent_perms: Seq<Seq<char>>,
    req: Seq<Seq<char>>,
) -> Seq<Seq<char>> {
    if req.len() < parent_perms.len() {
        kept(values, parent_perms, req)
    } else {
        values
    }
}

/// The hierarchy of the newly issued credential: the parent's hierarchy,
/// each entry's witnesses pruned, with the parent itself appended.
pub open spec fn extended_hierarchy(
    parent: EnvelopeRep<OurDelegationCredentialRep>,
    req: Seq<Seq<char>>,
) -> Seq<OurDelegatorRep> {
    parent.credential.hierarchy.map_values(
        |h: OurDelegatorRep|
            OurDelegatorRep {
                id: h.id,
                delegatee_id: h.delegatee_id,
                iat: h.iat,
                exp: h.exp,
                accumulator_value: h.accumulator_value,
                metadata_witnesses: h.metadata_witnesses,
                permission_witnesses: pruned_witnesses(
                    h.permission_witnesses,
                    parent.credential.permissions,
                    req,
                ),
            },
    ).push(
        OurDelegatorRep {
            id: parent.issuer,
            delegatee_id: parent.credential.delegatee_id,
            iat: parent.credential.iat,
            exp: parent.credential.exp,
            accumulator_value: parent.credential.accumulator_value,
            metadata_witnesses: parent.credential.metadata_witnesses,
            permission_witnesses: pruned_witnesses(
                parent.credential.permission_witnesses,
                parent.credential.permissions,
                req,
            ),
        },
    )
}

/// The first claim whose scalar is the degenerate one that has no witness:
/// the permission scalars in order, then the delegatee id, the issuance
/// time and the expiry.
pub open spec fn degenerate_claim_error(
    pscalars: Seq<Seq<char>>,
    s_did: Seq<char>,
    s_iat: Seq<char>,
    s_exp: Seq<char>,
    sk: Seq<char>,
) -> Option<DelegationError> {
    if witness_batch_error(pscalars, sk, 0) is Some {
        witness_batch_error(pscalars, sk, 0)
    } else if !acc_removable(s_did, sk) {
        Some(DelegationError::DegenerateScalar)
    } else if !acc_removable(s_iat, sk) {
        Some(DelegationError::DegenerateScalar)
    } else if !acc_removable(s_exp, sk) {
        Some(DelegationError::DegenerateScalar)
    } else {
        None
    }
}

/// What the accumulation and assembly of a credential yields, given the
/// timestamps and the hierarchy that were settled beforehand.
pub open spec fn issue_assembly_post(
    issuer: OurIssuerRep,
    context: Seq<Seq<char>>,
    credential_id: Seq<char>,
    valid_from: Seq<char>,
    delegatee_id: Seq<char>,
    permissions: Seq<Seq<char>>,
    iat_s: Seq<char>,
    exp_s: Seq<char>,
    hierarchy: Seq<OurDelegatorRep>,
    r: Result<EnvelopeRep<OurDelegationCredentialRep>, DelegationError>,
) -> bool {
    let ps = permissions.map_values(|p: Seq<char>| scalar_of(p));
    let s_did = scalar_of(delegatee_id);
    let s_iat = scalar_of(iat_s);
    let s_exp = scalar_of(exp_s);
    if degenerate_claim_error(ps, s_did, s_iat, s_exp, issuer.secret_key) is Some {
        r == Err::<EnvelopeRep<OurDelegationCredentialRep>, DelegationError>(
            degenerate_claim_error(ps, s_did, s_iat, s_exp, issuer.secret_key)->Some_0,
        )
    } else {
        match accumulate_error(ps, s_did, s_iat, s_exp) {
        Some(e) => r == Err::<EnvelopeRep<OurDelegationCredentialRep>, DelegationError>(e),
        None => {
            let value = issue_final_value(issuer, ps, s_did, s_iat, s_exp);
            let pk = acc_pk_of(issuer.secret_key, issuer.params);
            &&& acc_decodes(value) && acc_canonical(value)
            &&& acc_membership_check(
                value,
                s_did,
                acc_witness_of(value, s_did, issuer.secret_key),
                pk,
                issuer.params,
            ) == Some(true)
            &&& acc_membership_check(
                value,
                s_iat,
                acc_witness_of(value, s_iat, issuer.secret_key),
                pk,
                issuer.params,
            ) == Some(true)
            &&& acc_membership_check(
                value,
                s_exp,
                acc_witness_of(value, s_exp, issuer.secret_key),
                pk,
                issuer.params,
            ) == Some(true)
            &&& (forall|i: int|
                0 <= i < ps.len() ==> acc_membership_check(
                    value,
                    #[trigger] ps[i],
                    acc_witness_of(value, ps[i], issuer.secret_key),
                    pk,
                    issuer.params,
                ) == Some(true))
            &&& r matches Ok(vc) && vc == (EnvelopeRep {
                context: context,
                credential_type: seq!["OurDelegationCredential"@],
                id: credential_id,
                issuer: issuer.id,
                valid_from: valid_from,
                credential: OurDelegationCredentialRep {
                    delegatee_id: delegatee_id,
                    accumulator_value: value,
                    iat: iat_s,
                    exp: exp_s,
                    permissions: permissions,
                    metadata_witnesses: seq![
                        acc_witness_of(value, s_did, issuer.secret_key),
                        acc_witness_of(value, s_iat, issuer.secret_key),
                        acc_witness_of(value, s_exp, issuer.secret_key),
                    ],
                    permission_witnesses: Seq::new(
                        ps.len(),
                        |i: int| acc_witness_of(value, ps[i], issuer.secret_key),
                    ),
                    hierarchy: hierarchy,
                },
            })
        },
    }
    }
}

/// The clock-independent admission checks of issuance, in order: a
/// nonempty request and, under a parent, parseable hierarchy expiries, the
/// permission subset, the witness cardinalities, and no escalation.
pub open spec fn issue_precheck(
    permissions: Seq<Seq<char>>,
    parent: Option<EnvelopeRep<OurDelegationCredentialRep>>,
) -> Option<DelegationError> {
    if permissions.len() == 0 {
        Some(DelegationError::EmptyPermissions)
    } else {
        match parent {
            None => None,
            Some(p) => {
                if !hierarchy_exps_parse(p.credential.hierarchy) {
                    Some(DelegationError::ParseError)
                } else if !perms_subset(permissions, p.credential.permissions) {
                    Some(DelegationError::PermissionNotGranted)
                } else if !p.credential.wf_cardinality() {
                    Some(DelegationError::CardinalityMismatch)
                } else if permissions.len() > p.credential.permissions.len() {
                    Some(DelegationError::CannotEscalate)
                } else {
                    None
                }
            },
        }
    }
}

/// What the public issuance entry point guarantees: the clock-independent
/// admission errors, and the full `issue_at` classification for the clock
/// reading the call used.
pub open spec fn issue_wrapper_post(
    issuer: OurIssuerRep,
    context: Seq<Seq<char>>,
    credential_id: Seq<char>,
    valid_from: Seq<char>,
    delegatee_id: Seq<char>,
    validity_period_ns: u128,
    permissions: Seq<Seq<char>>,
    parent: Option<EnvelopeRep<OurDelegationCredentialRep>>,
    r: Result<EnvelopeRep<OurDelegationCredentialRep>, DelegationError>,
) -> bool {
    &&& (issue_precheck(permissions, parent) matches Some(e) ==> r == Err::<
        EnvelopeRep<OurDelegationCredentialRep>,
        DelegationError,
    >(e))
    &&& exists|now_ns: u128|
        now_ns < TIME_RANGE_NS && #[trigger] issue_at_post(
            issuer,
            now_ns,
            context,
            credential_id,
            valid_from,
            delegatee_id,
            validity_period_ns,
            permissions,
            parent,
            r,
        )
}

/// What `issue_at` guarantees, over the views of its inputs and result:
/// every input is classified, either by the error owed to it or by the
/// exact credential it yields.
pub open spec fn issue_at_post(
    issuer: OurIssuerRep,
    now_ns: u128,
    context: Seq<Seq<char>>,
    credential_id: Seq<char>,
    valid_from: Seq<char>,
    delegatee_id: Seq<char>,
    validity_period_ns: u128,
    permissions: Seq<Seq<char>>,
    parent: Option<EnvelopeRep<OurDelegationCredentialRep>>,
    r: Result<EnvelopeRep<OurDelegationCredentialRep>, DelegationError>,
) -> bool {
    let base = (now_ns + validity_period_ns) as u128;
    match issue_precheck(permissions, parent) {
        Some(e) => r == Err::<EnvelopeRep<OurDelegationCredentialRep>, DelegationError>(e),
        None => match parent {
            None => issue_assembly_post(
                issuer,
                context,
                credential_id,
                valid_from,
                delegatee_id,
                permissions,
                dec_of(now_ns as int),
                dec_of(base as int),
                Seq::<OurDelegatorRep>::empty(),
                r,
            ),
            Some(p) => issue_assembly_post(
                issuer,
                context,
                credential_id,
                valid_from,
                delegatee_id,
                permissions,
                dec_of(now_ns as int),
                dec_of(clamped_exp(p.credential.hierarchy, base, 0) as int),
                extended_hierarchy(p, permissions),
                r,
            ),
        },
    }
}

/// Expiry tightens monotonically down the chain: the clamped expiry never
/// exceeds the requested one, nor any parseable expiry of a hierarchy entry
/// it was clamped against. Together with the issuance contract, a credential
/// issued under a parent expires no later than the requested validity and no
/// later than any entry of the parent's hierarchy.
pub proof fn lemma_expiry_monotonic(h: Seq<OurDelegatorRep>, base: u128, i: int)
    requires
        0 <= i <= h.len(),
    ensures
        clamped_exp(h, base, i) <= base,
        forall|k: int|
            i <= k < h.len() && spec_parse_dec(#[trigger] h[k].exp) is Some ==> clamped_exp(
                h,
                base,
                i,
            ) <= spec_parse_dec(h[k].exp)->Some_0,
    decreases h.len() - i,
{
    if i < h.len() {
        let e = spec_parse_dec(h[i].exp);
        let next = if e is Some && e->Some_0 < base {
            e->Some_0
        } else {
            base
        };
        lemma_expiry_monotonic(h, next, i + 1);
    }
}

/// A scheme-A issuer: one delegator's accumulator key material and Ed25519
/// signing key. Construction publishes the public halves in the two
/// directories.
pub struct OurIssuer {
    id: String,
    params: String,
    secret_key: String,
    public_key: String,
    signing_secret: Vec<u8>,
}

impl View for OurIssuer {
    type V = OurIssuerRep;

    closed spec fn view(&self) -> OurIssuerRep {
        OurIssuerRep {
            id: self.id@,
            params: self.params@,
            secret_key: self.secret_key@,
            public_key: self.public_key@,
            signing_secret: self.signing_secret@,
        }
    }
}

impl OurIssuer {
    /// The key material is usable: the serialized keys decode and the
    /// signing key has the Ed25519 length.
    pub open spec fn wf(&self) -> bool {
        &&& sk_decodes(self@.secret_key)
        &&& params_decodes(self@.params)
        &&& self@.signing_secret.len() == 32
    }

    /// Generate fresh accumulator and signing keys for `id` and publish the
    /// accumulator entry and the verification key in the two directories.
    pub fn new(
        id: String,
        accumulator_dlt: &mut DltSim<DLTSimAccEntry>,
        verification_dlt: &mut DltSim<Vec<u8>>,
    ) -> (r: Result<OurIssuer, DelegationError>)
        ensures
            r matches Ok(issuer) ==> {
                &&& issuer.wf()
                &&& issuer@.id == id@
                &&& issuer@.public_key == acc_pk_of(issuer@.secret_key, issuer@.params)
                &&& final(accumulator_dlt)@.len() == old(accumulator_dlt)@.len() + 1
                &&& final(accumulator_dlt)@.drop_last() == old(accumulator_dlt)@
                &&& final(accumulator_dlt)@.last().0@ == id@
                &&& final(accumulator_dlt)@.last().1.public_key@ == issuer@.public_key
                &&& final(accumulator_dlt)@.last().1.setup_params@ == issuer@.params
                &&& final(verification_dlt)@.len() == old(verification_dlt)@.len() + 1
                &&& final(verification_dlt)@.drop_last() == old(verification_dlt)@
                &&& final(verification_dlt)@.last().0@ == id@
                &&& final(verification_dlt)@.last().1@ == ed25519_public_of(
                    issuer@.signing_secret,
                )
            },
            r is Ok,
    {
        let params = generate_setup_params();
        let secret_key = generate_accumulator_secret();
        let public_key = accumulator_public_key(&secret_key, &params);
        let entry = DLTSimAccEntry::new(public_key.clone(), params.clone());
        accumulator_dlt.insert(id.clone(), entry);
        let signing_secret = random_key_seed();
        let verification_key = ed25519_public_key(&signing_secret);
        verification_dlt.insert(id.clone(), verification_key);
        proof {
            assert(final(accumulator_dlt)@.drop_last() =~= old(accumulator_dlt)@);
            assert(final(verification_dlt)@.drop_last() =~= old(verification_dlt)@);
        }
        Ok(OurIssuer { id, params, secret_key, public_key, signing_secret })
    }

    /// Issue a delegation credential at the current clock reading.
    pub fn issue_delegation_verifiable_credential(
        &self,
        context: Vec<String>,
        credential_id: String,
        valid_from: String,
        delegatee_id: String,
        validity_period_ns: u128,
        permissions: Vec<String>,
        optional_issuer_vc: Option<VerifiableCredential<OurDelegationCredential>>,
    ) -> (r: Result<VerifiableCredential<OurDelegationCredential>, DelegationError>)
        requires
            self.wf(),
            validity_period_ns < TIME_RANGE_NS,
        ensures
            issue_wrapper_post(
                self@,
                strs(context@),
                credential_id@,
                valid_from@,
                delegatee_id@,
                validity_period_ns,
                strs(permissions@),
                match optional_issuer_vc {
                    Some(vc) => Some(vc@),
                    None => None,
                },
                match r {
                    Ok(vc) => Ok(vc@),
                    Err(e) => Err(e),
                },
            ),
            r matches Ok(vc) ==> vc@.issuer == self@.id && vc@.credential.permissions == strs(
                permissions@,
            ),
    {
        let now_ns = current_time_ns();
        let r = self.issue_at(
            now_ns,
            context,
            credential_id,
            valid_from,
            delegatee_id,
            validity_period_ns,
            permissions,
            optional_issuer_vc,
        );
        proof {
            assert(issue_wrapper_post(
                self@,
                strs(context@),
                credential_id@,
                valid_from@,
                delegatee_id@,
                validity_period_ns,
                strs(permissions@),
                match optional_issuer_vc {
                    Some(vc) => Some(vc@),
                    None => None,
                },
                match r {
                    Ok(vc) => Ok::<_, DelegationError>(vc@),
                    Err(e) => Err(e),
                },
            )) by {
                assert(issue_at_post(
                    self@,
                    now_ns,
                    strs(context@),
                    credential_id@,
                    valid_from@,
                    delegatee_id@,
                    validity_period_ns,
                    strs(permissions@),
                    match optional_issuer_vc {
                        Some(vc) => Some(vc@),
                        None => None,
                    },
                    match r {
                        Ok(vc) => Ok::<_, DelegationError>(vc@),
                        Err(e) => Err(e),
                    },
                ));
            }
        }
        r
    }

    /// Issue a delegation credential as of the clock reading `now_ns`.
    ///
    /// Without a parent, the credential accumulates the permissions and the
    /// three metadata claims under a fresh accumulator and carries an empty
    /// hierarchy. With a parent, the expiry is clamped to the minimum over
    /// the parent's hierarchy, the requested permissions must be a subset of
    /// the parent's of no greater number, and the parent is appended to the
    /// hierarchy with every witness list pruned to the requested set. A
    /// claim hashing to the degenerate scalar, or two claims hashing to the
    /// same scalar, are refused before anything is accumulated.
    #[verifier::loop_isolation(false)]
    #[verifier::rlimit(100)]
    pub fn issue_at(
        &self,
        now_ns: u128,
        context: Vec<String>,
        credential_id: String,
        valid_from: String,
        delegatee_id: String,
        validity_period_ns: u128,
        permissions: Vec<String>,
        optional_issuer_vc: Option<VerifiableCredential<OurDelegationCredential>>,
    ) -> (r: Result<VerifiableCredential<OurDelegationCredential>, DelegationError>)
        requires
            self.wf(),
            now_ns < TIME_RANGE_NS,
            validity_period_ns < TIME_RANGE_NS,
        ensures
            issue_at_post(
                self@,
                now_ns,
                strs(context@),
                credential_id@,
                valid_from@,
                delegatee_id@,
                validity_period_ns,
                strs(permissions@),
                match optional_issuer_vc {
                    Some(vc) => Some(vc@),
                    None => None,
                },
                match r {
                    Ok(vc) => Ok(vc@),
                    Err(e) => Err(e),
                },
            ),
    {
        if permissions.len() == 0 {
            return Err(DelegationError::EmptyPermissions);
        }
        let mut numeric_exp: u128 = now_ns + validity_period_ns;
        let ghost base_exp = numeric_exp;

        // Settle the expiry and run every chain-consistency check before
        // anything is accumulated.
        if let Some(parent_vc) = &optional_issuer_vc {
            let parent_dc = parent_vc.credential();
            let hierarchy = parent_dc.hierarchy();
            let ghost hreps = dreps(hierarchy@);
            let mut k: usize = 0;
            while k < hierarchy.len()
                invariant
                    0 <= k <= hierarchy@.len(),
                    forall|t: int|
                        0 <= t < k ==> spec_parse_dec(#[trigger] hreps[t].exp) is Some,
                    clamped_exp(hreps, base_exp, 0) == clamped_exp(hreps, numeric_exp, k as int),
                decreases hierarchy@.len() - k,
            {
                let entry = &hierarchy[k];
                let exp_chars = crate::text::string_to_chars(entry.exp().as_str());
                match crate::numbers::parse_dec(&exp_chars) {
                    None => {
                        proof {
                            assert(!(spec_parse_dec(hreps[k as int].exp) is Some));
                        }
                        return Err(DelegationError::ParseError);
                    },
                    Some(v) => {
                        if v < numeric_exp {
                            numeric_exp = v;
                        }
                    },
                }
                k = k + 1;
            }
            proof {
                assert(hierarchy_exps_parse(hreps));
                assert(clamped_exp(hreps, numeric_exp, hierarchy@.len() as int) == numeric_exp);
                assert(numeric_exp == clamped_exp(hreps, base_exp, 0));
            }

            let mut i: usize = 0;
            while i < permissions.len()
                invariant
                    0 <= i <= permissions@.len(),
                    forall|t: int|
                        0 <= t < i ==> seq_contains(
                            parent_dc@.permissions,
                            #[trigger] strs(permissions@)[t],
                        ),
                decreases permissions@.len() - i,
            {
                if !contains_string(parent_dc.permissions(), &permissions[i]) {
                    proof {
                        assert(strs(permissions@)[i as int] == permissions@[i as int]@);
                    }
                    return Err(DelegationError::PermissionNotGranted);
                }
                i = i + 1;
            }
            proof {
                assert(perms_subset(strs(permissions@), parent_dc@.permissions));
            }

            if parent_dc.permission_witnesses().len() != parent_dc.permissions().len() {
                proof {
                    assert(!parent_dc@.wf_cardinality());
                }
                return Err(DelegationError::CardinalityMismatch);
            }
            let mut j: usize = 0;
            while j < hierarchy.len()
                invariant
                    0 <= j <= hierarchy@.len(),
                    forall|t: int|
                        0 <= t < j ==> (#[trigger] hreps[t]).permission_witnesses.len()
                            == parent_dc@.permissions.len(),
                decreases hierarchy@.len() - j,
            {
                if hierarchy[j].permission_witnesses().len() != parent_dc.permissions().len() {
                    proof {
                        assert(hierarchy@[j as int]@ == parent_dc@.hierarchy[j as int]);
                        assert((parent_dc@.hierarchy[j as int]).permission_witnesses.len()
                            != parent_dc@.permissions.len());
                        assert(!parent_dc@.wf_cardinality());
                    }
                    return Err(DelegationError::CardinalityMismatch);
                }
                j = j + 1;
            }
            proof {
                assert(parent_dc@.wf_cardinality());
            }
            if permissions.len() > parent_dc.permissions().len() {
                return Err(DelegationError::CannotEscalate);
            }
        }

        // Hash every claim to its scalar.
        let iat = chars_to_string(&u128_to_dec(now_ns));
        let exp = chars_to_string(&u128_to_dec(numeric_exp));
        let mut perm_scalars: Vec<String> = Vec::new();
        let mut i: usize = 0;
        let ghost ps = strs(permissions@).map_values(|p: Seq<char>| scalar_of(p));
        while i < permissions.len()
            invariant
                0 <= i <= permissions@.len(),
                perm_scalars@.len() == i,
                forall|t: int| 0 <= t < i ==> strs(perm_scalars@)[t] == ps[t],
                forall|t: int|
                    0 <= t < i ==> crate::accumulator_utils::scalar_decodes(#[trigger] ps[t]),
            decreases permissions@.len() - i,
        {
            let scalar = to_scalar(permissions[i].as_str());
            proof {
                assert(strs(permissions@)[i as int] == permissions@[i as int]@);
                assert(scalar@ == ps[i as int]);
            }
            perm_scalars.push(scalar);
            i = i + 1;
        }
        proof {
            assert(strs(perm_scalars@) =~= ps);
        }
        let did_scalar = to_scalar(delegatee_id.as_str());
        let iat_scalar = to_scalar(iat.as_str());
        let exp_scalar = to_scalar(exp.as_str());

        // Refuse the degenerate scalar that has no witness before anything
        // is accumulated.
        let mut w: usize = 0;
        while w < perm_scalars.len()
            invariant
                0 <= w <= perm_scalars@.len(),
                witness_batch_error(ps, self@.secret_key, 0) == witness_batch_error(
                    ps,
                    self@.secret_key,
                    w as int,
                ),
                forall|t: int| 0 <= t < w ==> acc_removable(#[trigger] ps[t], self@.secret_key),
            decreases perm_scalars@.len() - w,
        {
            proof {
                assert(ps[w as int] == perm_scalars@[w as int]@);
            }
            if !check_removable(&perm_scalars[w], &self.secret_key) {
                return Err(DelegationError::DegenerateScalar);
            }
            proof {
                assert(witness_batch_error(ps, self@.secret_key, w as int)
                    == witness_batch_error(ps, self@.secret_key, w + 1));
            }
            w = w + 1;
        }
        if !check_removable(&did_scalar, &self.secret_key) {
            return Err(DelegationError::DegenerateScalar);
        }
        if !check_removable(&iat_scalar, &self.secret_key) {
            return Err(DelegationError::DegenerateScalar);
        }
        if !check_removable(&exp_scalar, &self.secret_key) {
            return Err(DelegationError::DegenerateScalar);
        }

        // Accumulate everything under a fresh accumulator.
        let mut am = match AccumulatorManager::new(self.secret_key.clone(), self.params.clone()) {
            Ok(m) => m,
            Err(_) => { return vstd::pervasive::unreached(); },
        };
        match am.add_elements(&perm_scalars) {
            Ok(()) => {},
            Err(e) => {
                proof {
                    assert(batch_add_error(Seq::<Seq<char>>::empty(), ps, 0) == Some(e));
                    assert(accumulate_error(
                        ps,
                        scalar_of(delegatee_id@),
                        scalar_of(iat@),
                        scalar_of(exp@),
                    ) == Some(e));
                }
                return Err(e);
            },
        }
        proof {
            assert(am@.elems =~= ps);
        }
        match am.add_element(did_scalar.clone()) {
            Ok(()) => {},
            Err(e) => {
                proof {
                    assert(batch_add_error(Seq::<Seq<char>>::empty(), ps, 0) is None);
                    assert(seq_contains(ps, scalar_of(delegatee_id@)));
                    assert(accumulate_error(
                        ps,
                        scalar_of(delegatee_id@),
                        scalar_of(iat@),
                        scalar_of(exp@),
                    ) == Some(e));
                }
                return Err(e);
            },
        }
        match am.add_element(iat_scalar.clone()) {
            Ok(()) => {},
            Err(e) => {
                proof {
                    assert(am@.elems =~= ps.push(scalar_of(delegatee_id@)));
                    assert(seq_contains(ps.push(scalar_of(delegatee_id@)), scalar_of(iat@)));
                    assert(accumulate_error(
                        ps,
                        scalar_of(delegatee_id@),
                        scalar_of(iat@),
                        scalar_of(exp@),
                    ) == Some(e));
                }
                return Err(e);
            },
        }
        match am.add_element(exp_scalar.clone()) {
            Ok(()) => {},
            Err(e) => {
                proof {
                    assert(am@.elems =~= ps.push(scalar_of(delegatee_id@)).push(
                        scalar_of(iat@),
                    ));
                    assert(seq_contains(
                        ps.push(scalar_of(delegatee_id@)).push(scalar_of(iat@)),
                        scalar_of(exp@),
                    ));
                    assert(accumulate_error(
                        ps,
                        scalar_of(delegatee_id@),
                        scalar_of(iat@),
                        scalar_of(exp@),
                    ) == Some(e));
                }
                return Err(e);
            },
        }
        let accumulator_value = match am.clone_accumulator() {
            Ok(v) => v,
            Err(_) => { return vstd::pervasive::unreached(); },
        };
        let did_witness = match am.compute_witness(&did_scalar) {
            Ok(w) => w,
            Err(_) => { return vstd::pervasive::unreached(); },
        };
        let iat_witness = match am.compute_witness(&iat_scalar) {
            Ok(w) => w,
            Err(_) => { return vstd::pervasive::unreached(); },
        };
        let exp_witness = match am.compute_witness(&exp_scalar) {
            Ok(w) => w,
            Err(_) => { return vstd::pervasive::unreached(); },
        };
        let mut metadata_witnesses: Vec<String> = Vec::new();
        metadata_witnesses.push(did_witness);
        metadata_witnesses.push(iat_witness);
        metadata_witnesses.push(exp_witness);
        let permission_witnesses = match am.compute_witnesses(&perm_scalars) {
            Ok(ws) => ws,
            Err(_) => { return vstd::pervasive::unreached(); },
        };
        proof {
            assert(strs(metadata_witnesses@) =~= seq![
                acc_witness_of(am@.value, scalar_of(delegatee_id@), self@.secret_key),
                acc_witness_of(am@.value, scalar_of(iat@), self@.secret_key),
                acc_witness_of(am@.value, scalar_of(exp@), self@.secret_key),
            ]);
            assert(strs(permission_witnesses@) =~= Seq::new(
                ps.len(),
                |t: int| acc_witness_of(am@.value, ps[t], self@.secret_key),
            ));
        }

        // Assemble the credential and its hierarchy.
        match optional_issuer_vc {
            None => {
                let hierarchy: Vec<OurDelegator> = Vec::new();
                let dc = match OurDelegationCredential::new(
                    delegatee_id,
                    accumulator_value,
                    iat,
                    exp,
                    permissions,
                    metadata_witnesses,
                    permission_witnesses,
                    hierarchy,
                ) {
                    Ok(dc) => dc,
                    Err(_) => { return vstd::pervasive::unreached(); },
                };
                proof {
                    assert(dreps(Seq::<OurDelegator>::empty()) =~= Seq::<
                        OurDelegatorRep,
                    >::empty());
                }
                let vc = VerifiableCredential::<OurDelegationCredential>::new(
                    context,
                    credential_id,
                    self.id.clone(),
                    valid_from,
                    dc,
                );
                Ok(vc)
            },
            Some(parent_vc) => {
                let parent_dc = parent_vc.credential();
                let prune = permissions.len() < parent_dc.permissions().len();
                proof {
                    assert(parent_dc@.permission_witnesses.len() == parent_dc@.permissions.len());
                }
                let outer_pw = if prune {
                    filter_kept(
                        parent_dc.permission_witnesses(),
                        parent_dc.permissions(),
                        &permissions,
                    )
                } else {
                    parent_dc.permission_witnesses().clone()
                };
                proof {
                    if !prune {
                        assert(strs(outer_pw@) =~= parent_dc@.permission_witnesses);
                    }
                }
                let ghost target = extended_hierarchy(parent_vc@, strs(permissions@));
                let mut new_hierarchy: Vec<OurDelegator> = Vec::new();
                let parent_hierarchy = parent_dc.hierarchy();
                let mut k: usize = 0;
                while k < parent_hierarchy.len()
                    invariant
                        0 <= k <= parent_hierarchy@.len(),
                        dreps(new_hierarchy@) =~= target.take(k as int),
                    decreases parent_hierarchy@.len() - k,
                {
                    let entry = &parent_hierarchy[k];
                    proof {
                        assert(entry@ == parent_dc@.hierarchy[k as int]);
                        assert((parent_dc@.hierarchy[k as int]).permission_witnesses.len()
                            == parent_dc@.permissions.len());
                    }
                    let entry_pw = if prune {
                        filter_kept(
                            entry.permission_witnesses(),
                            parent_dc.permissions(),
                            &permissions,
                        )
                    } else {
                        entry.permission_witnesses().clone()
                    };
                    proof {
                        if !prune {
                            assert(strs(entry_pw@) =~= entry@.permission_witnesses);
                        }
                        assert(entry@ == parent_vc@.credential.hierarchy[k as int]);
                    }
                    let ghost before = new_hierarchy@;
                    new_hierarchy.push(entry.with_permission_witnesses(entry_pw));
                    proof {
                        assert(dreps(new_hierarchy@) =~= dreps(before).push(
                            new_hierarchy@.last()@,
                        ));
                        assert(target[k as int] == new_hierarchy@.last()@);
                    }
                    k = k + 1;
                }
                let parent_delegator = OurDelegator::new(
                    parent_vc.issuer().clone(),
                    parent_dc.delegatee_id().clone(),
                    parent_dc.iat().clone(),
                    parent_dc.exp().clone(),
                    parent_dc.accumulator_value().clone(),
                    parent_dc.metadata_witnesses().clone(),
                    outer_pw,
                );
                let ghost before = new_hierarchy@;
                new_hierarchy.push(parent_delegator);
                proof {
                    assert(dreps(new_hierarchy@) =~= dreps(before).push(new_hierarchy@.last()@));
                    assert(target.take(parent_hierarchy@.len() as int) =~= target.drop_last());
                    assert(target.drop_last().push(target.last()) =~= target);
                    assert(new_hierarchy@.last()@ == target.last());
                    assert(dreps(new_hierarchy@) =~= target);
                }
                let dc = match OurDelegationCredential::new(
                    delegatee_id,
                    accumulator_value,
                    iat,
                    exp,
                    permissions,
                    metadata_witnesses,
                    permission_witnesses,
                    new_hierarchy,
                ) {
                    Ok(dc) => dc,
                    Err(_) => { return vstd::pervasive::unreached(); },
                };
                let vc = VerifiableCredential::<OurDelegationCredential>::new(
                    context,
                    credential_id,
                    self.id.clone(),
                    valid_from,
                    dc,
                );
                Ok(vc)
            },
        }
    }

    /// Derive and sign a presentation disclosing only the given permissions.
    pub fn issue_delegation_verifiable_presentation(
        &self,
        vc: VerifiableCredential<OurDelegationCredential>,
        disclosed_permissions: Vec<String>,
    ) -> (r: Result<String, DelegationError>)
        requires
            self.wf(),
            vc@.credential.wf_cardinality(),
        ensures
            ({
                let pruned = crate::our_delegation_credential::spec_retained(
                    vc@.credential,
                    strs(disclosed_permissions@),
                );
                &&& (r is Ok <==> pruned.permissions.len() > 0
                    && pruned.permission_witnesses.len() > 0)
                &&& (r matches Err(e) ==> e == DelegationError::EmptyPermissions && (
                pruned.permissions.len() == 0 || pruned.permission_witnesses.len() == 0))
                &&& (r matches Ok(t) ==> pruned.permissions.len() > 0 && {
                    let vp = EnvelopeRep {
                        context: vc@.context,
                        credential_type: vc@.credential_type,
                        id: vc@.id,
                        issuer: vc@.issuer,
                        valid_from: vc@.valid_from,
                        credential: pruned,
                    };
                    t@ == crate::jose::jws_token_of(
                        crate::verifiable_presentation::spec_vp_a_json(vp),
                        self@.signing_secret,
                    ) && crate::jose::jws_payload(t@, ed25519_public_of(self@.signing_secret))
                        == Some(crate::verifiable_presentation::spec_vp_a_json(vp))
                })
            }),
    {
        let ghost pruned = crate::our_delegation_credential::spec_retained(
            vc@.credential,
            strs(disclosed_permissions@),
        );
        let ghost vc_view = vc@;
        let vp = match VerifiablePresentation::<
            OurDelegationCredential,
        >::from_verifiable_credential(vc, disclosed_permissions) {
            Ok(vp) => vp,
            Err(e) => {
                return Err(e);
            },
        };
        proof {
            assert(vp@ == (EnvelopeRep {
                context: vc_view.context,
                credential_type: vc_view.credential_type,
                id: vc_view.id,
                issuer: vc_view.issuer,
                valid_from: vc_view.valid_from,
                credential: pruned,
            }));
        }
        vp.to_signed_jwt(&self.signing_secret)
    }
}

} // verus!
