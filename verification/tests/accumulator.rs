use ark_serialize::{CanonicalDeserialize, CanonicalSerialize};
use delegation::accumulator_manager::AccumulatorManager;
use delegation::accumulator_utils::{
    accumulator_public_key, generate_accumulator_secret, generate_setup_params, to_scalar,
};
use delegation::accumulator_verifier::AccumulatorVerifier;
use delegation::errors::DelegationError;

fn fresh_manager() -> (AccumulatorManager, String, String) {
    let params = generate_setup_params();
    let secret = generate_accumulator_secret();
    let public_key = accumulator_public_key(&secret, &params);
    let manager = AccumulatorManager::new(secret, params.clone()).expect("generated keys decode");
    (manager, public_key, params)
}

#[test]
fn to_scalar_is_deterministic_and_nontrivial() {
    let a1 = to_scalar("a claim");
    let a2 = to_scalar("a claim");
    let b = to_scalar("another claim");
    assert_eq!(a1, a2);
    assert_ne!(a1, b);
    assert_ne!(a1, "a claim");
}

#[test]
fn membership_witness_verifies() {
    let (mut manager, public_key, params) = fresh_manager();
    let element = to_scalar("claim-a");
    manager.add_element(element.clone()).expect("fresh element is added");
    let witness = manager.compute_witness(&element).expect("scalar decodes");
    let value = manager.clone_accumulator().expect("value is available");
    let verifier = AccumulatorVerifier::new(value, public_key, params).expect("value decodes");
    verifier
        .verify_accumulator_witnesses(vec![witness], vec![element], false)
        .expect("a fresh witness verifies");
}

#[test]
fn stale_witness_fails_after_update() {
    let (mut manager, public_key, params) = fresh_manager();
    let element = to_scalar("claim-a");
    manager.add_element(element.clone()).expect("fresh element is added");
    let stale_witness = manager.compute_witness(&element).expect("scalar decodes");
    // Any later update changes the value, invalidating old witnesses.
    manager.add_element(to_scalar("claim-b")).expect("fresh element is added");
    let value = manager.clone_accumulator().expect("value is available");
    let verifier = AccumulatorVerifier::new(value, public_key, params).expect("value decodes");
    let r = verifier.verify_accumulator_witnesses(vec![stale_witness], vec![element], false);
    assert!(matches!(r, Err(DelegationError::MembershipFailed { index: 0 })));
}

#[test]
fn swapped_witness_fails_membership() {
    let (mut manager, public_key, params) = fresh_manager();
    let ea = to_scalar("claim-a");
    let eb = to_scalar("claim-b");
    manager.add_element(ea.clone()).expect("fresh element is added");
    manager.add_element(eb.clone()).expect("fresh element is added");
    let wa = manager.compute_witness(&ea).expect("scalar decodes");
    let wb = manager.compute_witness(&eb).expect("scalar decodes");
    let value = manager.clone_accumulator().expect("value is available");
    let verifier = AccumulatorVerifier::new(value, public_key, params).expect("value decodes");
    // The right witnesses pass; the same witnesses at swapped positions fail
    // at the first bad pair.
    verifier
        .verify_accumulator_witnesses(vec![wa.clone(), wb.clone()], vec![ea.clone(), eb.clone()], true)
        .expect("matching witnesses verify");
    let r = verifier.verify_accumulator_witnesses(vec![wb, wa], vec![ea, eb], false);
    assert!(matches!(r, Err(DelegationError::MembershipFailed { index: 0 })));
}

#[test]
fn duplicate_add_is_rejected_exactly() {
    let (mut manager, _pk, _params) = fresh_manager();
    let element = to_scalar("claim-a");
    manager.add_element(element.clone()).expect("fresh element is added");
    assert!(matches!(
        manager.add_element(element.clone()),
        Err(DelegationError::AlreadyPresent)
    ));
    // The failed call changed nothing: the element can still be removed once.
    manager.remove_element(&element).expect("present element is removed");
    assert!(matches!(manager.remove_element(&element), Err(DelegationError::Absent)));
}

#[test]
fn batch_add_is_atomic() {
    let (mut manager, _pk, _params) = fresh_manager();
    let a = to_scalar("claim-a");
    let b = to_scalar("claim-b");
    let dup = vec![a.clone(), b.clone(), a.clone()];
    assert!(matches!(
        manager.add_elements(&dup),
        Err(DelegationError::AlreadyPresent)
    ));
    // Nothing was added: the batch without the duplicate goes through.
    manager.add_elements(&vec![a, b]).expect("distinct batch is added");
}

#[test]
fn batch_remove_is_atomic() {
    let (mut manager, _pk, _params) = fresh_manager();
    let a = to_scalar("claim-a");
    let b = to_scalar("claim-b");
    let c = to_scalar("claim-c");
    manager.add_elements(&vec![a.clone(), b.clone()]).expect("distinct batch is added");
    assert!(matches!(
        manager.remove_elements(&vec![a.clone(), c]),
        Err(DelegationError::Absent)
    ));
    // Nothing was removed by the failed batch.
    manager.remove_elements(&vec![a, b]).expect("present batch is removed");
}

#[test]
fn remove_restores_and_witnesses_follow_value() {
    let (mut manager, public_key, params) = fresh_manager();
    let a = to_scalar("claim-a");
    let b = to_scalar("claim-b");
    manager.add_elements(&vec![a.clone(), b.clone()]).expect("distinct batch is added");
    manager.remove_element(&b).expect("present element is removed");
    let witness = manager.compute_witness(&a).expect("scalar decodes");
    let value = manager.clone_accumulator().expect("value is available");
    let verifier = AccumulatorVerifier::new(value, public_key, params).expect("value decodes");
    verifier
        .verify_accumulator_witnesses(vec![witness], vec![a], false)
        .expect("witness after removal verifies");
}

#[test]
fn length_mismatch_is_rejected() {
    let (mut manager, public_key, params) = fresh_manager();
    let a = to_scalar("claim-a");
    manager.add_element(a.clone()).expect("fresh element is added");
    let w = manager.compute_witness(&a).expect("scalar decodes");
    let value = manager.clone_accumulator().expect("value is available");
    let verifier = AccumulatorVerifier::new(value, public_key, params).expect("value decodes");
    let r = verifier.verify_accumulator_witnesses(vec![w], Vec::new(), false);
    assert!(matches!(r, Err(DelegationError::LengthMismatch)));
}

#[test]
fn undecodable_inputs_are_reported() {
    let (manager, public_key, params) = fresh_manager();
    let value = manager.clone_accumulator().expect("value is available");
    let verifier = AccumulatorVerifier::new(value, public_key, params).expect("value decodes");
    let r = verifier.verify_accumulator_witnesses(
        vec![String::from("not-a-witness")],
        vec![String::from("not-a-scalar")],
        false,
    );
    assert!(matches!(r, Err(DelegationError::Deserialize)));
    assert!(matches!(
        AccumulatorVerifier::new(String::from("***"), String::new(), String::new()),
        Err(DelegationError::Deserialize)
    ));
}

#[test]
fn negated_secret_key_scalar_is_degenerate() {
    // The one scalar with no witness is the negation of the secret key;
    // build it directly from the generated key material.
    let params = generate_setup_params();
    let secret = generate_accumulator_secret();
    let bytes = multibase::Base::Base64Url.decode(&secret).expect("generated keys decode");
    let sk = vb_accumulator::setup::SecretKey::<ark_bn254::Fr>::deserialize_compressed(&*bytes)
        .expect("generated keys decode");
    let neg = -sk.0;
    let mut out: Vec<u8> = Vec::new();
    neg.serialize_compressed(&mut out).expect("a scalar serializes");
    let neg_str = multibase::Base::Base64Url.encode(out);

    let mut manager = AccumulatorManager::new(secret, params).expect("generated keys decode");
    assert!(matches!(
        manager.compute_witness(&neg_str),
        Err(DelegationError::DegenerateScalar)
    ));
    manager.add_element(neg_str.clone()).expect("even the degenerate scalar can be added");
    assert!(matches!(
        manager.remove_element(&neg_str),
        Err(DelegationError::DegenerateScalar)
    ));
    assert!(matches!(
        manager.remove_elements(&vec![neg_str]),
        Err(DelegationError::DegenerateScalar)
    ));
}

#[test]
fn add_then_remove_restores_the_value() {
    let (mut manager, _pk, _params) = fresh_manager();
    let base = manager.clone_accumulator().expect("value is available");
    let element = to_scalar("claim-a");
    manager.add_element(element.clone()).expect("fresh element is added");
    manager.remove_element(&element).expect("present element is removed");
    assert_eq!(manager.clone_accumulator().expect("value is available"), base);
}
