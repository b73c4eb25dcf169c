use delegation::dlt_sim::{new_dlt_sim, DltSim};
use delegation::errors::DelegationError;
use delegation::pjv_delegation_credential::PJVDelegationCredential;
use delegation::pjv_issuer_verifier::PJVIssuerVerifier;
use delegation::pjv_signature::PJVSignature;
use delegation::verifiable_credential::VerifiableCredential;

const HOUR_NS: u128 = 3_600_000_000_000;

fn delegator_id(i: usize) -> String {
    format!("https://vc.example/delegators/d{i}")
}

fn credential_id(i: usize) -> String {
    format!("http://delegation.example/credentials/{i}")
}

fn context() -> Vec<String> {
    vec![String::from("https://www.w3.org/ns/credentials/v2")]
}

fn valid_from() -> String {
    String::from("2026-01-01T00:00:00Z")
}

fn resource_uri() -> String {
    String::from("https://vc.example/resources/r1")
}

fn ops(names: &[&str]) -> Vec<String> {
    names.iter().map(|p| p.to_string()).collect()
}

type KeyDlt = DltSim<Vec<u8>>;

#[test]
fn test_issuer() -> Result<(), String> {
    let mut encryption_dlt: KeyDlt = new_dlt_sim();
    let mut signature_dlt: KeyDlt = new_dlt_sim();

    let owner = delegator_id(0);

    let issuer_owner = PJVIssuerVerifier::new(delegator_id(0), &mut encryption_dlt, &mut signature_dlt)
        .map_err(|e| format!("owner creation failed [{e:?}]"))?;
    let operations = ops(&["p0", "p1", "p2"]);
    let vc = issuer_owner
        .issue_delegation_verifiable_credential(
            context(),
            credential_id(1337),
            valid_from(),
            delegator_id(1),
            HOUR_NS,
            owner.clone(),
            resource_uri(),
            operations.clone(),
            None,
            &encryption_dlt,
        )
        .map_err(|e| format!("root issuance failed [{e:?}]"))?;
    println!("{}", vc.to_string().map_err(|e| format!("[{e:?}]"))?);

    let issuer1 = PJVIssuerVerifier::new(delegator_id(1), &mut encryption_dlt, &mut signature_dlt)
        .map_err(|e| format!("issuer creation failed [{e:?}]"))?;
    let vc = issuer1
        .issue_delegation_verifiable_credential(
            context(),
            credential_id(1338),
            valid_from(),
            delegator_id(2),
            HOUR_NS,
            owner.clone(),
            resource_uri(),
            operations.clone(),
            Some(vc),
            &encryption_dlt,
        )
        .map_err(|e| format!("issuance failed [{e:?}]"))?;
    println!("{}", vc.to_string().map_err(|e| format!("[{e:?}]"))?);

    let issuer2 = PJVIssuerVerifier::new(delegator_id(2), &mut encryption_dlt, &mut signature_dlt)
        .map_err(|e| format!("issuer creation failed [{e:?}]"))?;
    let vc = issuer2
        .issue_delegation_verifiable_credential(
            context(),
            credential_id(1339),
            valid_from(),
            delegator_id(3),
            HOUR_NS,
            owner.clone(),
            resource_uri(),
            operations.clone(),
            Some(vc),
            &encryption_dlt,
        )
        .map_err(|e| format!("issuance failed [{e:?}]"))?;
    println!("{}", vc.to_string().map_err(|e| format!("[{e:?}]"))?);

    let vp = issuer2
        .issue_delegation_verifiable_presentation(vc, ops(&["p1"]))
        .map_err(|e| format!("presentation failed [{e:?}]"))?;
    println!("{vp}");
    println!("{}", vp.len());

    issuer_owner
        .verify_verifiable_presentation(delegator_id(2), vp, &signature_dlt)
        .map_err(|e| format!("verification failed [{e:?}]"))
}

/// Build the depth-3 chain D0 (owner) -> D1 -> D2 -> D3 and return the
/// entities with the final credential.
fn depth_three_chain(
    encryption_dlt: &mut KeyDlt,
    signature_dlt: &mut KeyDlt,
) -> Result<
    (Vec<PJVIssuerVerifier>, VerifiableCredential<PJVDelegationCredential>),
    String,
> {
    let owner = delegator_id(0);
    let operations = ops(&["p0", "p1", "p2"]);
    let mut entities: Vec<PJVIssuerVerifier> = Vec::new();
    let mut vc: Option<VerifiableCredential<PJVDelegationCredential>> = None;
    for i in 0..3usize {
        let entity = PJVIssuerVerifier::new(delegator_id(i), encryption_dlt, signature_dlt)
            .map_err(|e| format!("entity creation failed [{e:?}]"))?;
        let next = entity
            .issue_delegation_verifiable_credential(
                context(),
                credential_id(1337 + i),
                valid_from(),
                delegator_id(i + 1),
                HOUR_NS,
                owner.clone(),
                resource_uri(),
                operations.clone(),
                vc.clone(),
                encryption_dlt,
            )
            .map_err(|e| format!("issuance {i} failed [{e:?}]"))?;
        entities.push(entity);
        vc = Some(next);
    }
    Ok((entities, vc.expect("three issuances")))
}

#[test]
fn owner_verifies_depth_three_disclosure() -> Result<(), String> {
    let mut encryption_dlt: KeyDlt = new_dlt_sim();
    let mut signature_dlt: KeyDlt = new_dlt_sim();
    let (entities, vc) = depth_three_chain(&mut encryption_dlt, &mut signature_dlt)?;

    // The pruned claim set must be re-signed under the key its `iss` field
    // names, so the issuing delegator d2 derives and signs the presentation.
    let vp = entities[2]
        .issue_delegation_verifiable_presentation(vc, ops(&["p1"]))
        .map_err(|e| format!("presentation failed [{e:?}]"))?;
    entities[0]
        .verify_verifiable_presentation(delegator_id(2), vp, &signature_dlt)
        .map_err(|e| format!("verification failed [{e:?}]"))
}

#[test]
fn tampered_inner_signature_is_rejected() -> Result<(), String> {
    let mut encryption_dlt: KeyDlt = new_dlt_sim();
    let mut signature_dlt: KeyDlt = new_dlt_sim();
    let owner = delegator_id(0);
    let operations = ops(&["p0", "p1", "p2"]);

    let d0 = PJVIssuerVerifier::new(delegator_id(0), &mut encryption_dlt, &mut signature_dlt)
        .map_err(|e| format!("owner creation failed [{e:?}]"))?;
    let vc0 = d0
        .issue_delegation_verifiable_credential(
            context(),
            credential_id(1337),
            valid_from(),
            delegator_id(1),
            HOUR_NS,
            owner.clone(),
            resource_uri(),
            operations.clone(),
            None,
            &encryption_dlt,
        )
        .map_err(|e| format!("root issuance failed [{e:?}]"))?;

    let d1 = PJVIssuerVerifier::new(delegator_id(1), &mut encryption_dlt, &mut signature_dlt)
        .map_err(|e| format!("issuer creation failed [{e:?}]"))?;
    let vc1 = d1
        .issue_delegation_verifiable_credential(
            context(),
            credential_id(1338),
            valid_from(),
            delegator_id(2),
            HOUR_NS,
            owner.clone(),
            resource_uri(),
            operations.clone(),
            Some(vc0),
            &encryption_dlt,
        )
        .map_err(|e| format!("issuance failed [{e:?}]"))?;

    // Flip one character of the middle credential's signature before it is
    // wrapped into the next layer.
    let good = vc1.credential().signature().signature().clone();
    let flipped: String = {
        let mut chars: Vec<char> = good.chars().collect();
        chars[0] = if chars[0] == 'A' { 'B' } else { 'A' };
        chars.into_iter().collect()
    };
    let tampered_dc = PJVDelegationCredential::new(
        vc1.credential().delegator().clone(),
        PJVSignature::new(flipped),
    )
    .map_err(|e| format!("credential rebuild failed [{e:?}]"))?;
    let tampered_vc = VerifiableCredential::<PJVDelegationCredential>::new(
        context(),
        credential_id(1338),
        delegator_id(1),
        valid_from(),
        tampered_dc,
    );

    let d2 = PJVIssuerVerifier::new(delegator_id(2), &mut encryption_dlt, &mut signature_dlt)
        .map_err(|e| format!("issuer creation failed [{e:?}]"))?;
    let vc2 = d2
        .issue_delegation_verifiable_credential(
            context(),
            credential_id(1339),
            valid_from(),
            delegator_id(3),
            HOUR_NS,
            owner.clone(),
            resource_uri(),
            operations.clone(),
            Some(tampered_vc),
            &encryption_dlt,
        )
        .map_err(|e| format!("issuance failed [{e:?}]"))?;
    let vp = d2
        .issue_delegation_verifiable_presentation(vc2, ops(&["p1"]))
        .map_err(|e| format!("presentation failed [{e:?}]"))?;

    match d0.verify_verifiable_presentation(delegator_id(2), vp, &signature_dlt) {
        Err(DelegationError::JWSInvalid) => Ok(()),
        other => Err(format!("expected JWSInvalid, got [{other:?}]")),
    }
}

#[test]
fn non_owner_cannot_decrypt_hierarchy() -> Result<(), String> {
    let mut encryption_dlt: KeyDlt = new_dlt_sim();
    let mut signature_dlt: KeyDlt = new_dlt_sim();
    let (entities, vc) = depth_three_chain(&mut encryption_dlt, &mut signature_dlt)?;
    let vp = entities[2]
        .issue_delegation_verifiable_presentation(vc, ops(&["p1"]))
        .map_err(|e| format!("presentation failed [{e:?}]"))?;
    // d1 is a delegator on the chain but not the resource owner.
    match entities[1].verify_verifiable_presentation(delegator_id(2), vp, &signature_dlt) {
        Err(DelegationError::JWEInvalid) => Ok(()),
        other => Err(format!("expected JWEInvalid, got [{other:?}]")),
    }
}

#[test]
fn root_must_be_owned_by_verifier() -> Result<(), String> {
    // d1 issues a root credential although d0 is the owner; the owner
    // rejects the terminal layer.
    let mut encryption_dlt: KeyDlt = new_dlt_sim();
    let mut signature_dlt: KeyDlt = new_dlt_sim();
    let d0 = PJVIssuerVerifier::new(delegator_id(0), &mut encryption_dlt, &mut signature_dlt)
        .map_err(|e| format!("owner creation failed [{e:?}]"))?;
    let d1 = PJVIssuerVerifier::new(delegator_id(1), &mut encryption_dlt, &mut signature_dlt)
        .map_err(|e| format!("issuer creation failed [{e:?}]"))?;
    let vc = d1
        .issue_delegation_verifiable_credential(
            context(),
            credential_id(1337),
            valid_from(),
            delegator_id(2),
            HOUR_NS,
            delegator_id(0),
            resource_uri(),
            ops(&["p0"]),
            None,
            &encryption_dlt,
        )
        .map_err(|e| format!("issuance failed [{e:?}]"))?;
    let vp = d1
        .issue_delegation_verifiable_presentation(vc, ops(&["p0"]))
        .map_err(|e| format!("presentation failed [{e:?}]"))?;
    match d0.verify_verifiable_presentation(delegator_id(1), vp, &signature_dlt) {
        Err(DelegationError::InvalidRoot) => Ok(()),
        other => Err(format!("expected InvalidRoot, got [{other:?}]")),
    }
}

#[test]
fn unknown_owner_is_rejected() {
    let mut encryption_dlt: KeyDlt = new_dlt_sim();
    let mut signature_dlt: KeyDlt = new_dlt_sim();
    let d0 = PJVIssuerVerifier::new(delegator_id(0), &mut encryption_dlt, &mut signature_dlt)
        .unwrap();
    let vc = d0
        .issue_delegation_verifiable_credential(
            context(),
            credential_id(1337),
            valid_from(),
            delegator_id(1),
            HOUR_NS,
            delegator_id(0),
            resource_uri(),
            ops(&["p0"]),
            None,
            &encryption_dlt,
        )
        .unwrap();
    let d1 = PJVIssuerVerifier::new(delegator_id(1), &mut encryption_dlt, &mut signature_dlt)
        .unwrap();
    let r = d1.issue_delegation_verifiable_credential(
        context(),
        credential_id(1338),
        valid_from(),
        delegator_id(2),
        HOUR_NS,
        String::from("https://vc.example/delegators/elsewhere"),
        resource_uri(),
        ops(&["p0"]),
        Some(vc),
        &encryption_dlt,
    );
    assert!(matches!(r, Err(DelegationError::UnknownOwner)));
}

#[test]
fn empty_operations_are_rejected() {
    let mut encryption_dlt: KeyDlt = new_dlt_sim();
    let mut signature_dlt: KeyDlt = new_dlt_sim();
    let d0 = PJVIssuerVerifier::new(delegator_id(0), &mut encryption_dlt, &mut signature_dlt)
        .unwrap();
    let r = d0.issue_delegation_verifiable_credential(
        context(),
        credential_id(1337),
        valid_from(),
        delegator_id(1),
        HOUR_NS,
        delegator_id(0),
        resource_uri(),
        Vec::new(),
        None,
        &encryption_dlt,
    );
    assert!(matches!(r, Err(DelegationError::EmptyOperations)));
}

#[test]
fn future_credential_is_not_yet_valid() -> Result<(), String> {
    let mut encryption_dlt: KeyDlt = new_dlt_sim();
    let mut signature_dlt: KeyDlt = new_dlt_sim();
    let d0 = PJVIssuerVerifier::new(delegator_id(0), &mut encryption_dlt, &mut signature_dlt)
        .map_err(|e| format!("owner creation failed [{e:?}]"))?;
    let now_ns = std::time::SystemTime::now()
        .duration_since(std::time::UNIX_EPOCH)
        .map_err(|e| format!("clock failed [{e}]"))?
        .as_nanos();
    let vc = d0
        .issue_at(
            now_ns + 10_000_000_000,
            context(),
            credential_id(1337),
            valid_from(),
            delegator_id(1),
            HOUR_NS,
            delegator_id(0),
            resource_uri(),
            ops(&["p0"]),
            None,
            &encryption_dlt,
        )
        .map_err(|e| format!("issuance failed [{e:?}]"))?;
    let vp = d0
        .issue_delegation_verifiable_presentation(vc, ops(&["p0"]))
        .map_err(|e| format!("presentation failed [{e:?}]"))?;
    match d0.verify_verifiable_presentation(delegator_id(0), vp, &signature_dlt) {
        Err(DelegationError::NotYetValid) => Ok(()),
        other => Err(format!("expected NotYetValid, got [{other:?}]")),
    }
}

#[test]
fn operations_retention_returns_removed_indices() -> Result<(), String> {
    let mut encryption_dlt: KeyDlt = new_dlt_sim();
    let mut signature_dlt: KeyDlt = new_dlt_sim();
    let d0 = PJVIssuerVerifier::new(delegator_id(0), &mut encryption_dlt, &mut signature_dlt)
        .map_err(|e| format!("owner creation failed [{e:?}]"))?;
    let vc = d0
        .issue_delegation_verifiable_credential(
            context(),
            credential_id(1337),
            valid_from(),
            delegator_id(1),
            HOUR_NS,
            delegator_id(0),
            resource_uri(),
            ops(&["p0", "p1", "p2"]),
            None,
            &encryption_dlt,
        )
        .map_err(|e| format!("issuance failed [{e:?}]"))?;
    let mut dc = vc.credential().clone();
    let removed = dc.retain_only(ops(&["p1"])).map_err(|e| format!("[{e:?}]"))?;
    assert_eq!(removed, vec![0usize, 2usize]);
    assert_eq!(dc.delegator().operations().clone(), ops(&["p1"]));
    Ok(())
}
