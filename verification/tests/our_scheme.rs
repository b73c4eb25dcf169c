use delegation::dlt_sim::{new_dlt_sim, DLTSimAccEntry, DltSim};
use delegation::errors::DelegationError;
use delegation::our_delegation_credential::OurDelegationCredential;
use delegation::our_delegation::OurDelegation;
use delegation::our_issuer::OurIssuer;
use delegation::our_verifier::OurVerifier;
use delegation::verifiable_credential::VerifiableCredential;

const HOUR_NS: u128 = 3_600_000_000_000;

fn delegator_id(i: usize) -> String {
    format!("https://vc.example/delegators/d{i}")
}

fn credential_id(i: usize) -> String {
    format!("http://delegation.example/credentials/{i}")
}

fn context() -> Vec<String> {
    vec![String::from("https://www.w3.org/ns/credentials/v2")]
}

fn valid_from() -> String {
    String::from("2026-01-01T00:00:00Z")
}

type AccDlt = DltSim<DLTSimAccEntry>;
type VerDlt = DltSim<Vec<u8>>;

fn issue_chain(
    acc_dlt: &mut AccDlt,
    ver_dlt: &mut VerDlt,
    grants: &[Vec<String>],
) -> Result<(Vec<OurIssuer>, VerifiableCredential<OurDelegationCredential>), String> {
    let mut issuers: Vec<OurIssuer> = Vec::new();
    let mut vc: Option<VerifiableCredential<OurDelegationCredential>> = None;
    for (i, permissions) in grants.iter().enumerate() {
        let issuer = OurIssuer::new(delegator_id(i), acc_dlt, ver_dlt)
            .map_err(|e| format!("issuer creation failed [{e:?}]"))?;
        let next = issuer
            .issue_delegation_verifiable_credential(
                context(),
                credential_id(1337 + i),
                valid_from(),
                delegator_id(i + 1),
                HOUR_NS,
                permissions.clone(),
                vc.clone(),
            )
            .map_err(|e| format!("issuance {i} failed [{e:?}]"))?;
        issuers.push(issuer);
        vc = Some(next);
    }
    Ok((issuers, vc.expect("at least one grant")))
}

fn perms(names: &[&str]) -> Vec<String> {
    names.iter().map(|p| format!("https://vc.example/resources/r1:{p}")).collect()
}

#[test]
fn issue_vc() -> Result<(), String> {
    let mut acc_dlt: AccDlt = new_dlt_sim();
    let mut ver_dlt: VerDlt = new_dlt_sim();
    let grants = [
        perms(&["p0", "p1", "p2"]),
        perms(&["p0", "p1"]),
        perms(&["p0", "p1"]),
        perms(&["p0"]),
    ];
    let (_issuers, vc) = issue_chain(&mut acc_dlt, &mut ver_dlt, &grants)?;
    let rendered = vc.to_string().map_err(|e| format!("to_string failed [{e:?}]"))?;
    println!("{rendered}");
    assert_eq!(vc.credential().hierarchy().len(), 3);
    assert_eq!(vc.credential().permissions().len(), 1);
    Ok(())
}

#[test]
fn issue_vp() -> Result<(), String> {
    let mut acc_dlt: AccDlt = new_dlt_sim();
    let mut ver_dlt: VerDlt = new_dlt_sim();
    let grants = [perms(&["p0", "p1", "p2"]), perms(&["p0", "p1"]), perms(&["p0", "p1"])];
    let (issuers, vc) = issue_chain(&mut acc_dlt, &mut ver_dlt, &grants)?;
    let disclosed = perms(&["p1"]);
    let signed_vp = issuers
        .last()
        .unwrap()
        .issue_delegation_verifiable_presentation(vc, disclosed)
        .map_err(|e| format!("presentation failed [{e:?}]"))?;
    println!("{signed_vp}");
    println!("{}", signed_vp.len());
    Ok(())
}

#[test]
fn verify_vp() -> Result<(), String> {
    let mut acc_dlt: AccDlt = new_dlt_sim();
    let mut ver_dlt: VerDlt = new_dlt_sim();
    let grants = [
        perms(&["p0", "p1", "p2"]),
        perms(&["p0", "p1"]),
        perms(&["p0", "p1"]),
        perms(&["p0"]),
    ];
    let (_issuers, vc) = issue_chain(&mut acc_dlt, &mut ver_dlt, &grants)?;

    // The holder d4 signs the presentation with its own published key.
    let holder = OurIssuer::new(delegator_id(4), &mut acc_dlt, &mut ver_dlt)
        .map_err(|e| format!("holder creation failed [{e:?}]"))?;
    let signed_vp = holder
        .issue_delegation_verifiable_presentation(vc, perms(&["p0"]))
        .map_err(|e| format!("presentation failed [{e:?}]"))?;

    let verifier = OurVerifier::new(acc_dlt.clone(), ver_dlt.clone())
        .map_err(|e| format!("verifier creation failed [{e:?}]"))?;
    verifier
        .verify_verifiable_presentation(delegator_id(4), signed_vp, true)
        .map_err(|e| format!("verification failed [{e:?}]"))
}

#[test]
fn single_root_disclose_all_verifies() -> Result<(), String> {
    let mut acc_dlt: AccDlt = new_dlt_sim();
    let mut ver_dlt: VerDlt = new_dlt_sim();
    let all = perms(&["p0", "p1", "p2"]);
    let (_issuers, vc) = issue_chain(&mut acc_dlt, &mut ver_dlt, &[all.clone()])?;

    let holder = OurIssuer::new(delegator_id(1), &mut acc_dlt, &mut ver_dlt)
        .map_err(|e| format!("holder creation failed [{e:?}]"))?;
    let vp1 = holder
        .issue_delegation_verifiable_presentation(vc.clone(), all.clone())
        .map_err(|e| format!("presentation failed [{e:?}]"))?;
    let verifier = OurVerifier::new(acc_dlt.clone(), ver_dlt.clone())
        .map_err(|e| format!("verifier creation failed [{e:?}]"))?;
    verifier
        .verify_verifiable_presentation(delegator_id(1), vp1.clone(), true)
        .map_err(|e| format!("verification failed [{e:?}]"))?;

    // The presentation length is stable across runs: a second, freshly
    // issued chain yields a token within five percent of the first.
    let mut acc_dlt2: AccDlt = new_dlt_sim();
    let mut ver_dlt2: VerDlt = new_dlt_sim();
    let (_issuers2, vc2) = issue_chain(&mut acc_dlt2, &mut ver_dlt2, &[all.clone()])?;
    let holder2 = OurIssuer::new(delegator_id(1), &mut acc_dlt2, &mut ver_dlt2)
        .map_err(|e| format!("holder creation failed [{e:?}]"))?;
    let vp2 = holder2
        .issue_delegation_verifiable_presentation(vc2, all)
        .map_err(|e| format!("presentation failed [{e:?}]"))?;
    let (a, b) = (vp1.len() as i64, vp2.len() as i64);
    assert!((a - b).abs() * 20 <= a.max(b), "lengths {a} and {b} differ by more than 5%");
    Ok(())
}

#[test]
fn escalation_is_rejected() -> Result<(), String> {
    // Every requested permission is granted by the parent, but the request
    // holds more entries than the parent does: the subset check passes and
    // the cardinality check refuses the escalation. A request naming a
    // permission outside the grant fails the subset check first.
    let mut acc_dlt: AccDlt = new_dlt_sim();
    let mut ver_dlt: VerDlt = new_dlt_sim();
    let (_issuers, vc) = issue_chain(&mut acc_dlt, &mut ver_dlt, &[perms(&["p0", "p1", "p2"])])?;
    let d1 = OurIssuer::new(delegator_id(1), &mut acc_dlt, &mut ver_dlt)
        .map_err(|e| format!("issuer creation failed [{e:?}]"))?;
    let r = d1.issue_delegation_verifiable_credential(
        context(),
        credential_id(1338),
        valid_from(),
        delegator_id(2),
        HOUR_NS,
        perms(&["p0", "p1", "p2", "p0"]),
        Some(vc),
    );
    match r {
        Err(DelegationError::CannotEscalate) => Ok(()),
        Err(other) => Err(format!("expected CannotEscalate, got [{other:?}]")),
        Ok(_) => Err(String::from("expected CannotEscalate, got a credential")),
    }
}

#[test]
fn removed_permission_cannot_be_reissued() -> Result<(), String> {
    // The parent grants only p0 and p1; a child requesting the absent p2
    // is turned away before anything is accumulated.
    let mut acc_dlt: AccDlt = new_dlt_sim();
    let mut ver_dlt: VerDlt = new_dlt_sim();
    let (_issuers, vc) = issue_chain(&mut acc_dlt, &mut ver_dlt, &[perms(&["p0", "p1"])])?;
    let d1 = OurIssuer::new(delegator_id(1), &mut acc_dlt, &mut ver_dlt)
        .map_err(|e| format!("issuer creation failed [{e:?}]"))?;
    let r = d1.issue_delegation_verifiable_credential(
        context(),
        credential_id(1338),
        valid_from(),
        delegator_id(2),
        HOUR_NS,
        perms(&["p2"]),
        Some(vc),
    );
    match r {
        Err(DelegationError::PermissionNotGranted) => Ok(()),
        Err(other) => Err(format!("expected PermissionNotGranted, got [{other:?}]")),
        Ok(_) => Err(String::from("expected PermissionNotGranted, got a credential")),
    }
}

#[test]
fn empty_permissions_are_rejected() {
    let mut acc_dlt: AccDlt = new_dlt_sim();
    let mut ver_dlt: VerDlt = new_dlt_sim();
    let d0 = OurIssuer::new(delegator_id(0), &mut acc_dlt, &mut ver_dlt).unwrap();
    let r = d0.issue_delegation_verifiable_credential(
        context(),
        credential_id(1337),
        valid_from(),
        delegator_id(1),
        HOUR_NS,
        Vec::new(),
        None,
    );
    assert!(matches!(r, Err(DelegationError::EmptyPermissions)));
}

#[test]
fn expired_presentation_is_rejected() -> Result<(), String> {
    // Issue a credential whose validity ended long before the clock reading
    // the verifier uses.
    let mut acc_dlt: AccDlt = new_dlt_sim();
    let mut ver_dlt: VerDlt = new_dlt_sim();
    let d0 = OurIssuer::new(delegator_id(0), &mut acc_dlt, &mut ver_dlt)
        .map_err(|e| format!("issuer creation failed [{e:?}]"))?;
    let vc = d0
        .issue_at(
            1_000,
            context(),
            credential_id(1337),
            valid_from(),
            delegator_id(1),
            10,
            perms(&["p0"]),
            None,
        )
        .map_err(|e| format!("issuance failed [{e:?}]"))?;
    let holder = OurIssuer::new(delegator_id(1), &mut acc_dlt, &mut ver_dlt)
        .map_err(|e| format!("holder creation failed [{e:?}]"))?;
    let vp = holder
        .issue_delegation_verifiable_presentation(vc, perms(&["p0"]))
        .map_err(|e| format!("presentation failed [{e:?}]"))?;
    let verifier = OurVerifier::new(acc_dlt.clone(), ver_dlt.clone())
        .map_err(|e| format!("verifier creation failed [{e:?}]"))?;
    match verifier.verify_verifiable_presentation(delegator_id(1), vp, false) {
        Err(DelegationError::Expired) => Ok(()),
        other => Err(format!("expected Expired, got [{other:?}]")),
    }
}

#[test]
fn unknown_presenter_is_rejected() {
    let acc_dlt: AccDlt = new_dlt_sim();
    let ver_dlt: VerDlt = new_dlt_sim();
    let verifier = OurVerifier::new(acc_dlt, ver_dlt).unwrap();
    let r = verifier.verify_verifiable_presentation(
        delegator_id(9),
        String::from("xxx.yyy.zzz"),
        false,
    );
    assert!(matches!(r, Err(DelegationError::UnknownPresenter)));
}

#[test]
fn retention_keeps_witnesses_aligned() -> Result<(), String> {
    let mut acc_dlt: AccDlt = new_dlt_sim();
    let mut ver_dlt: VerDlt = new_dlt_sim();
    let grants = [perms(&["p0", "p1", "p2"]), perms(&["p0", "p1", "p2"])];
    let (_issuers, vc) = issue_chain(&mut acc_dlt, &mut ver_dlt, &grants)?;
    let mut dc = vc.credential().clone();
    let removed = dc
        .retain_only(perms(&["p0", "p2"]))
        .map_err(|e| format!("retain_only failed [{e:?}]"))?;
    assert_eq!(removed, vec![1usize]);
    assert_eq!(dc.permissions().clone(), perms(&["p0", "p2"]));
    let n = dc.permissions().len();
    assert_eq!(dc.permission_witnesses().len(), n);
    for entry in dc.hierarchy() {
        assert_eq!(entry.permission_witnesses().len(), n);
    }
    Ok(())
}
