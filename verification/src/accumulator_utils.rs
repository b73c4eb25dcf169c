use ark_bn254::{Bn254, Fr, G1Affine};
use ark_ff::{Field, PrimeField};
use ark_serialize::{CanonicalDeserialize, CanonicalSerialize};
use ark_std::rand::SeedableRng;
use multibase::Base::Base64Url;
use sha2::Digest;
use vb_accumulator::positive::{Accumulator, PositiveAccumulator};
use vb_accumulator::setup::{PublicKey, SecretKey, SetupParams};
use vb_accumulator::witness::MembershipWitness;

use vstd::prelude::*;

verus! {

/// The SHA-256 digest of a string's UTF-8 bytes.
pub uninterp spec fn sha256_of(s: Seq<char>) -> Seq<u8>;

/// The base64url text of the compressed scalar obtained by reducing a
/// 32-byte big-endian integer modulo the BN254 scalar field order.
pub uninterp spec fn scalar_str_of(b: Seq<u8>) -> Seq<char>;

/// Whether a string decodes as a compressed BN254 scalar.
pub uninterp spec fn scalar_decodes(s: Seq<char>) -> bool;

/// Whether a string decodes as a compressed accumulator value.
pub uninterp spec fn acc_decodes(s: Seq<char>) -> bool;

/// Whether a string decodes as an accumulator secret key.
pub uninterp spec fn sk_decodes(s: Seq<char>) -> bool;

/// Whether a string decodes as accumulator setup parameters.
pub uninterp spec fn params_decodes(s: Seq<char>) -> bool;

/// Whether a string decodes as an accumulator public key.
pub uninterp spec fn pk_decodes(s: Seq<char>) -> bool;

/// Whether the sum of an element's scalar and the secret key has an
/// inverse in the field: false exactly for the degenerate element equal to
/// the negated secret key, which has no witness and cannot be removed.
pub uninterp spec fn acc_removable(elem: Seq<char>, sk: Seq<char>) -> bool;

/// Whether a string is the canonical serialization of the accumulator
/// value it decodes to: the form this library's own wrappers emit. A
/// foreign encoding can decode to the same value yet differ as text, so
/// value equations over strings hold only for canonical inputs.
pub uninterp spec fn acc_canonical(v: Seq<char>) -> bool;

/// The public key derived from an accumulator secret key and parameters.
pub uninterp spec fn acc_pk_of(sk: Seq<char>, params: Seq<char>) -> Seq<char>;

/// The initial accumulator value derived from setup parameters.
pub uninterp spec fn acc_init_of(params: Seq<char>) -> Seq<char>;

/// The accumulator value after one element is accumulated.
pub uninterp spec fn acc_after_add(value: Seq<char>, elem: Seq<char>, sk: Seq<char>) -> Seq<char>;

/// The accumulator value after one element is removed.
pub uninterp spec fn acc_after_remove(value: Seq<char>, elem: Seq<char>, sk: Seq<char>) -> Seq<
    char,
>;

/// The membership witness for an element under the current value.
pub uninterp spec fn acc_witness_of(value: Seq<char>, elem: Seq<char>, sk: Seq<char>) -> Seq<char>;

/// What the pairing check for a (value, element, witness) triple under a
/// public key and parameters yields; `None` when something fails to decode.
pub uninterp spec fn acc_membership_check(
    value: Seq<char>,
    elem: Seq<char>,
    witness: Seq<char>,
    pk: Seq<char>,
    params: Seq<char>,
) -> Option<bool>;

/// The string-to-scalar mapping used for every accumulated claim: SHA-256
/// of the text, reduced modulo the scalar field order.
pub open spec fn scalar_of(s: Seq<char>) -> Seq<char> {
    scalar_str_of(sha256_of(s))
}

/// Relies on sha2::Sha256: the digest is a function of the input bytes
/// and is 32 bytes long.
#[verifier::external_body]
fn sha256_digest(s: &str) -> (r: Vec<u8>)
    ensures
        r@ == sha256_of(s@),
        r@.len() == 32,
{
    sha2::Sha256::digest(s.as_bytes()).to_vec()
}

/// Relies on ark_ff's from_be_bytes_mod_order, ark_serialize's compressed
/// encoding and multibase's base64url: the result is a function of the
/// bytes, and the encoding of a scalar decodes again.
#[verifier::external_body]
fn scalar_from_hash(b: &Vec<u8>) -> (r: String)
    requires
        b@.len() == 32,
    ensures
        r@ == scalar_str_of(b@),
        scalar_decodes(r@),
{
    let scalar = Fr::from_be_bytes_mod_order(b.as_slice());
    let mut bytes: Vec<u8> = Vec::new();
    scalar.serialize_compressed(&mut bytes).expect("a scalar serializes into a vector");
    Base64Url.encode(bytes)
}

/// Hash a string to the scalar it is accumulated as, in its serialized
/// base64url form.
pub fn to_scalar(s: &str) -> (r: String)
    ensures
        r@ == scalar_of(s@),
        scalar_decodes(r@),
{
    let digest = sha256_digest(s);
    scalar_from_hash(&digest)
}

/// Relies on vb_accumulator's SetupParams generation; the encoding of
/// generated parameters decodes again.
#[verifier::external_body]
pub fn generate_setup_params() -> (r: String)
    ensures
        params_decodes(r@),
{
    let mut rng = ark_std::rand::prelude::StdRng::from_entropy();
    let params = SetupParams::<Bn254>::generate_using_rng(&mut rng);
    let mut bytes: Vec<u8> = Vec::new();
    params.serialize_compressed(&mut bytes).expect("setup params serialize into a vector");
    Base64Url.encode(bytes)
}

/// Relies on vb_accumulator's SecretKey generation; the encoding of a
/// generated key decodes again.
#[verifier::external_body]
pub fn generate_accumulator_secret() -> (r: String)
    ensures
        sk_decodes(r@),
{
    let mut rng = ark_std::rand::prelude::StdRng::from_entropy();
    let sk = SecretKey::<Fr>::new(&mut rng);
    let mut bytes: Vec<u8> = Vec::new();
    sk.serialize_compressed(&mut bytes).expect("a secret key serializes into a vector");
    Base64Url.encode(bytes)
}

/// Relies on vb_accumulator's PublicKey::new_from_secret_key: the public
/// key is a function of the secret key and the parameters.
#[verifier::external_body]
pub fn accumulator_public_key(sk: &String, params: &String) -> (r: String)
    requires
        sk_decodes(sk@),
        params_decodes(params@),
    ensures
        r@ == acc_pk_of(sk@, params@),
        pk_decodes(r@),
{
    let s = SecretKey::<Fr>::deserialize_compressed(&*Base64Url.decode(sk).expect("checked")).expect("checked");
    let p = SetupParams::<Bn254>::deserialize_compressed(&*Base64Url.decode(params).expect("checked")).expect("checked");
    let pk = PublicKey::new_from_secret_key(&s, &p);
    let mut bytes: Vec<u8> = Vec::new();
    pk.serialize_compressed(&mut bytes).expect("a public key serializes into a vector");
    Base64Url.encode(bytes)
}

/// Relies on PositiveAccumulator::initialize: the initial value is the
/// generator carried by the setup parameters, freshly serialized.
#[verifier::external_body]
pub fn accumulator_init(params: &String) -> (r: String)
    requires
        params_decodes(params@),
    ensures
        r@ == acc_init_of(params@),
        acc_decodes(r@),
        acc_canonical(r@),
{
    let p = SetupParams::<Bn254>::deserialize_compressed(&*Base64Url.decode(params).expect("checked")).expect("checked");
    let acc = PositiveAccumulator::<G1Affine>::initialize(&p);
    let mut bytes: Vec<u8> = Vec::new();
    acc.serialize_compressed(&mut bytes).expect("an accumulator serializes into a vector");
    Base64Url.encode(bytes)
}

/// Relies on PositiveAccumulator::compute_new_post_add: the new value is
/// the old one raised by the element plus the secret key, freshly
/// serialized. Removal divides by the same factor, so for a removable
/// element it restores the value: exact group arithmetic, stated as the
/// last clause over canonical inputs only - a non-canonical encoding of
/// the same point would round-trip to its canonical text instead.
#[verifier::external_body]
pub fn accumulator_add(value: &String, elem: &String, sk: &String) -> (r: String)
    requires
        acc_decodes(value@),
        scalar_decodes(elem@),
        sk_decodes(sk@),
    ensures
        r@ == acc_after_add(value@, elem@, sk@),
        acc_decodes(r@),
        acc_canonical(r@),
        acc_removable(elem@, sk@) && acc_canonical(value@) ==> acc_after_remove(
            r@,
            elem@,
            sk@,
        ) == value@,
{
    let acc = PositiveAccumulator::<G1Affine>::deserialize_compressed(&*Base64Url.decode(value).expect("checked")).expect("checked");
    let e = Fr::deserialize_compressed(&*Base64Url.decode(elem).expect("checked")).expect("checked");
    let s = SecretKey::<Fr>::deserialize_compressed(&*Base64Url.decode(sk).expect("checked")).expect("checked");
    let new_acc = PositiveAccumulator::from_value(acc.compute_new_post_add(&e, &s));
    let mut bytes: Vec<u8> = Vec::new();
    new_acc.serialize_compressed(&mut bytes).expect("an accumulator serializes into a vector");
    Base64Url.encode(bytes)
}

/// Relies on PositiveAccumulator::compute_new_post_remove: the inverse of
/// accumulating the element. The degenerate element whose scalar is the
/// negated secret key is excluded: its factor has no inverse and the call
/// would not return.
#[verifier::external_body]
pub fn accumulator_remove(value: &String, elem: &String, sk: &String) -> (r: String)
    requires
        acc_decodes(value@),
        scalar_decodes(elem@),
        sk_decodes(sk@),
        acc_removable(elem@, sk@),
    ensures
        r@ == acc_after_remove(value@, elem@, sk@),
        acc_decodes(r@),
        acc_canonical(r@),
{
    let acc = PositiveAccumulator::<G1Affine>::deserialize_compressed(&*Base64Url.decode(value).expect("checked")).expect("checked");
    let e = Fr::deserialize_compressed(&*Base64Url.decode(elem).expect("checked")).expect("checked");
    let s = SecretKey::<Fr>::deserialize_compressed(&*Base64Url.decode(sk).expect("checked")).expect("checked");
    let new_acc = PositiveAccumulator::from_value(acc.compute_new_post_remove(&e, &s));
    let mut bytes: Vec<u8> = Vec::new();
    new_acc.serialize_compressed(&mut bytes).expect("an accumulator serializes into a vector");
    Base64Url.encode(bytes)
}

/// Relies on compute_membership_witness and on verify_membership's pairing
/// equation: the witness is a function of the current value, the element,
/// and the secret key, and an honestly computed witness passes the check
/// under the matching public key - for w = (1/(e+sk))*V the equation
/// e(w, e*P~ + sk*P~) = e(V, P~) holds identically. The degenerate element
/// whose scalar is the negated secret key is excluded: its factor has no
/// inverse and the call would not return.
#[verifier::external_body]
pub fn accumulator_witness(value: &String, elem: &String, sk: &String, params: &String) -> (r:
    String)
    requires
        acc_decodes(value@),
        scalar_decodes(elem@),
        sk_decodes(sk@),
        params_decodes(params@),
        acc_removable(elem@, sk@),
    ensures
        r@ == acc_witness_of(value@, elem@, sk@),
        acc_membership_check(value@, elem@, r@, acc_pk_of(sk@, params@), params@) == Some(true),
{
    let _ = params;
    let acc = PositiveAccumulator::<G1Affine>::deserialize_compressed(&*Base64Url.decode(value).expect("checked")).expect("checked");
    let e = Fr::deserialize_compressed(&*Base64Url.decode(elem).expect("checked")).expect("checked");
    let s = SecretKey::<Fr>::deserialize_compressed(&*Base64Url.decode(sk).expect("checked")).expect("checked");
    let witness = acc.compute_membership_witness(&e, &s);
    let mut bytes: Vec<u8> = Vec::new();
    witness.serialize_compressed(&mut bytes).expect("a witness serializes into a vector");
    Base64Url.encode(bytes)
}

/// Relies on ark_serialize's compressed decoding of an accumulator value.
#[verifier::external_body]
pub fn check_accumulator_value(value: &String) -> (r: bool)
    ensures
        r == acc_decodes(value@),
{
    match Base64Url.decode(value) {
        Ok(bytes) => PositiveAccumulator::<G1Affine>::deserialize_compressed(&*bytes).is_ok(),
        Err(_) => false,
    }
}

/// Relies on ark_serialize's compressed decoding of a secret key.
#[verifier::external_body]
pub fn check_secret_key(sk: &String) -> (r: bool)
    ensures
        r == sk_decodes(sk@),
{
    match Base64Url.decode(sk) {
        Ok(bytes) => SecretKey::<Fr>::deserialize_compressed(&*bytes).is_ok(),
        Err(_) => false,
    }
}

/// Relies on ark_serialize's compressed decoding of setup parameters.
#[verifier::external_body]
pub fn check_setup_params(params: &String) -> (r: bool)
    ensures
        r == params_decodes(params@),
{
    match Base64Url.decode(params) {
        Ok(bytes) => SetupParams::<Bn254>::deserialize_compressed(&*bytes).is_ok(),
        Err(_) => false,
    }
}

/// Relies on ark_ff's field inverse: whether the element's scalar plus the
/// secret key is invertible, i.e. the element is not the negated key.
#[verifier::external_body]
pub fn check_removable(elem: &String, sk: &String) -> (r: bool)
    requires
        scalar_decodes(elem@),
        sk_decodes(sk@),
    ensures
        r == acc_removable(elem@, sk@),
{
    let e = Fr::deserialize_compressed(&*Base64Url.decode(elem).unwrap()).unwrap();
    let s = SecretKey::<Fr>::deserialize_compressed(&*Base64Url.decode(sk).unwrap()).unwrap();
    (e + s.0).inverse().is_some()
}

/// Relies on ark_serialize's compressed decoding of a public key.
#[verifier::external_body]
pub fn check_public_key(pk: &String) -> (r: bool)
    ensures
        r == pk_decodes(pk@),
{
    match Base64Url.decode(pk) {
        Ok(bytes) => PublicKey::<Bn254>::deserialize_compressed(&*bytes).is_ok(),
        Err(_) => false,
    }
}

/// Relies on ark_serialize's compressed decoding of a scalar.
#[verifier::external_body]
pub fn check_scalar(elem: &String) -> (r: bool)
    ensures
        r == scalar_decodes(elem@),
{
    match Base64Url.decode(elem) {
        Ok(bytes) => Fr::deserialize_compressed(&*bytes).is_ok(),
        Err(_) => false,
    }
}

/// Relies on verify_membership: the pairing check is a function of the
/// five serialized inputs; `None` reports that one of them failed to
/// decode.
#[verifier::external_body]
pub fn accumulator_verify_membership(
    value: &String,
    elem: &String,
    witness: &String,
    pk: &String,
    params: &String,
) -> (r: Option<bool>)
    requires
        acc_decodes(value@),
        pk_decodes(pk@),
        params_decodes(params@),
    ensures
        r == acc_membership_check(value@, elem@, witness@, pk@, params@),
{
    let acc = PositiveAccumulator::<G1Affine>::deserialize_compressed(&*Base64Url.decode(value).unwrap()).unwrap();
    let p = PublicKey::<Bn254>::deserialize_compressed(&*Base64Url.decode(pk).unwrap()).unwrap();
    let pp = SetupParams::<Bn254>::deserialize_compressed(&*Base64Url.decode(params).unwrap()).unwrap();
    (|| {
        let e = Fr::deserialize_compressed(&*Base64Url.decode(elem).ok()?).ok()?;
        let w = MembershipWitness::<G1Affine>::deserialize_compressed(&*Base64Url.decode(witness).ok()?).ok()?;
        Some(acc.verify_membership(&e, &w, &p, &pp))
    })()
}

} // verus!
