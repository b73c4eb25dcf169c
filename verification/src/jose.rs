use vstd::prelude::*;

use ark_std::rand::{RngCore, SeedableRng};
use ed25519_dalek::{Signer, Verifier};
use josekit::jwe::{JweHeader, ECDH_ES_A128KW};
use josekit::jwk::Jwk;
use josekit::jws::{EdDSA, JwsHeader};
use josekit::Value;
use multibase::Base::Base64Url;

use crate::errors::DelegationError::{JWEInvalid, JWSInvalid};

use crate::errors::DelegationError;

verus! {

/// Every clock reading lies under this bound: a `Duration` holds at most
/// `u64::MAX` seconds, so its nanoseconds fit well below 2^94.
pub const TIME_RANGE_NS: u128 = 0x4000_0000_0000_0000_0000_0000;

/// The Ed25519 verification key derived from a 32-byte signing key.
pub uninterp spec fn ed25519_public_of(secret: Seq<u8>) -> Seq<u8>;

/// The X25519 public key derived from a 32-byte decryption key.
pub uninterp spec fn x25519_public_of(secret: Seq<u8>) -> Seq<u8>;

/// Whether bytes form a recipient key the JWE encrypter accepts: true of
/// every key a 32-byte secret derives.
pub uninterp spec fn x25519_key_ok(public: Seq<u8>) -> bool;

/// The base64url text of the Ed25519 signature over a message.
pub uninterp spec fn ed25519_sig_b64(msg: Seq<char>, secret: Seq<u8>) -> Seq<char>;

/// Whether a base64url signature verifies over a message under a key.
pub uninterp spec fn ed25519_check(msg: Seq<char>, sig_b64: Seq<char>, public: Seq<u8>) -> bool;

/// The compact JWS produced by signing a payload with an Ed25519 key.
pub uninterp spec fn jws_token_of(payload: Seq<char>, secret: Seq<u8>) -> Seq<char>;

/// The payload that verifying a compact JWS under a key yields, if any.
pub uninterp spec fn jws_payload(token: Seq<char>, public: Seq<u8>) -> Option<Seq<char>>;

/// The plaintext that decrypting a compact JWE with an X25519 key yields,
/// if any.
pub uninterp spec fn jwe_plaintext(token: Seq<char>, secret: Seq<u8>) -> Option<Seq<char>>;

/// Relies on ark_std's rand: fills 32 bytes from the OS entropy source.
#[verifier::external_body]
pub fn random_key_seed() -> (r: Vec<u8>)
    ensures
        r@.len() == 32,
{
    let mut rng = ark_std::rand::prelude::StdRng::from_entropy();
    let mut seed = [0u8; 32];
    rng.fill_bytes(&mut seed);
    seed.to_vec()
}

/// Relies on ed25519_dalek::SigningKey: the verification key is a function
/// of the signing key alone.
#[verifier::external_body]
pub fn ed25519_public_key(secret: &Vec<u8>) -> (r: Vec<u8>)
    requires
        secret@.len() == 32,
    ensures
        r@ == ed25519_public_of(secret@),
        r@.len() == 32,
{
    let bytes: [u8; 32] = secret.as_slice().try_into().expect("a signing key has 32 bytes");
    let signing_key = ed25519_dalek::SigningKey::from_bytes(&bytes);
    signing_key.verifying_key().to_bytes().to_vec()
}

/// Relies on x25519_dalek::PublicKey: the public key is a function of the
/// secret alone.
#[verifier::external_body]
pub fn x25519_public_key(secret: &Vec<u8>) -> (r: Vec<u8>)
    requires
        secret@.len() == 32,
    ensures
        r@ == x25519_public_of(secret@),
        r@.len() == 32,
        x25519_key_ok(r@),
{
    let bytes: [u8; 32] = secret.as_slice().try_into().expect("a decryption key has 32 bytes");
    let secret_key = x25519_dalek::StaticSecret::from(bytes);
    x25519_dalek::PublicKey::from(&secret_key).as_bytes().to_vec()
}

#[verifier::external_type_specification]
#[verifier::external_body]
pub struct ExJwk(josekit::jwk::Jwk);

/// Relies on josekit::jwk::Jwk: builds an OKP JWK holding the given curve
/// name, public value, and optional private value, base64url-encoded.
#[verifier::external_body]
fn okp_jwk(crv: &str, x: &Vec<u8>, d: Option<&Vec<u8>>) -> (r: Result<
    josekit::jwk::Jwk,
    DelegationError,
>) {
    let mut jwk = Jwk::new("OKP");
    jwk.set_parameter("crv", Some(Value::String(crv.into()))).map_err(|_| JWSInvalid)?;
    jwk.set_parameter("x", Some(Value::String(Base64Url.encode(x)))).map_err(|_| JWSInvalid)?;
    if let Some(d) = d {
        jwk.set_parameter("d", Some(Value::String(Base64Url.encode(d)))).map_err(|_| JWSInvalid)?;
    }
    Ok(jwk)
}

/// Relies on ed25519_dalek's deterministic signing and on multibase's
/// base64url encoding: the signature is a function of message and key, and
/// verifies under the matching verification key.
#[verifier::external_body]
pub fn ed25519_sign_b64(msg: &str, secret: &Vec<u8>) -> (r: String)
    requires
        secret@.len() == 32,
    ensures
        r@ == ed25519_sig_b64(msg@, secret@),
        ed25519_check(msg@, r@, ed25519_public_of(secret@)),
{
    let bytes: [u8; 32] = secret.as_slice().try_into().expect("a signing key has 32 bytes");
    let signing_key = ed25519_dalek::SigningKey::from_bytes(&bytes);
    let signature = signing_key.sign(msg.as_bytes());
    Base64Url.encode(signature.to_bytes())
}

/// Relies on ed25519_dalek's verification and on multibase's base64url
/// decoding; a signature that does not decode does not verify.
#[verifier::external_body]
pub fn ed25519_verify_b64(msg: &str, sig_b64: &String, public: &Vec<u8>) -> (r: bool)
    ensures
        r == ed25519_check(msg@, sig_b64@, public@),
{
    let key = <[u8; 32]>::try_from(public.as_slice()).ok().and_then(|b| ed25519_dalek::VerifyingKey::from_bytes(&b).ok());
    let sig = Base64Url.decode(sig_b64).ok().and_then(|b| <[u8; 64]>::try_from(b.as_slice()).ok());
    match (key, sig) {
        (Some(k), Some(s)) => k.verify(msg.as_bytes(), &ed25519_dalek::Signature::from_bytes(&s)).is_ok(),
        _ => false,
    }
}

/// Relies on josekit's EdDSA compact JWS serialization, which is
/// deterministic for Ed25519, cannot fail for a 32-byte key, and whose
/// verifier accepts what the signer produced for the matching key.
#[verifier::external_body]
pub fn jws_sign(payload: &str, secret: &Vec<u8>) -> (r: String)
    requires
        secret@.len() == 32,
    ensures
        r@ == jws_token_of(payload@, secret@),
        jws_payload(r@, ed25519_public_of(secret@)) == Some(payload@),
{
    let bytes: [u8; 32] = secret.as_slice().try_into().expect("a signing key has 32 bytes");
    let public = ed25519_dalek::SigningKey::from_bytes(&bytes).verifying_key().to_bytes();
    let jwk = okp_jwk("Ed25519", &public.to_vec(), Some(secret)).expect("an OKP JWK accepts these parameters");
    let signer = EdDSA.signer_from_jwk(&jwk).expect("a 32-byte Ed25519 JWK yields a signer");
    josekit::jws::serialize_compact(payload.as_bytes(), &JwsHeader::new(), &signer).expect("EdDSA signing does not fail")
}

/// Relies on josekit's EdDSA compact JWS verification: it rejects a
/// malformed token, a wrong algorithm, and a bad signature, and yields the
/// signed payload otherwise.
#[verifier::external_body]
pub fn jws_verify(token: &str, public: &Vec<u8>) -> (r: Result<String, DelegationError>)
    ensures
        match r {
            Ok(p) => jws_payload(token@, public@) == Some(p@),
            Err(e) => e == DelegationError::JWSInvalid && jws_payload(token@, public@) is None,
        },
{
    let jwk = okp_jwk("Ed25519", public, None)?;
    let verifier = EdDSA.verifier_from_jwk(&jwk).map_err(|_| JWSInvalid)?;
    let (payload, _header) = josekit::jws::deserialize_compact(token, &verifier).map_err(|_| JWSInvalid)?;
    String::from_utf8(payload).map_err(|_| JWSInvalid)
}

/// Relies on josekit's ECDH-ES+A128KW / A128GCM compact JWE: what is
/// encrypted for a public key decrypts to the same plaintext under the
/// matching secret key, and encryption succeeds for every recipient key a
/// 32-byte secret derives.
#[verifier::external_body]
pub fn jwe_encrypt(payload: &str, recipient_public: &Vec<u8>) -> (r: Result<
    String,
    DelegationError,
>)
    ensures
        r matches Ok(t) ==> forall|sk: Seq<u8>|
            x25519_public_of(sk) == recipient_public@ ==> jwe_plaintext(t@, sk) == Some(payload@),
        r matches Err(e) ==> e == DelegationError::JWEInvalid,
        x25519_key_ok(recipient_public@) ==> r is Ok,
{
    let jwk = okp_jwk("X25519", recipient_public, None).map_err(|_| JWEInvalid)?;
    let encrypter = ECDH_ES_A128KW.encrypter_from_jwk(&jwk).map_err(|_| JWEInvalid)?;
    let mut header = JweHeader::new();
    header.set_algorithm("ECDH-ES+A128KW");
    header.set_content_encryption("A128GCM");
    josekit::jwe::serialize_compact(payload.as_bytes(), &header, &encrypter).map_err(|_| JWEInvalid)
}

/// Relies on josekit's ECDH-ES+A128KW / A128GCM compact JWE decryption: it
/// rejects a malformed token and a wrong key, and yields the plaintext
/// otherwise.
#[verifier::external_body]
pub fn jwe_decrypt(token: &str, secret: &Vec<u8>) -> (r: Result<String, DelegationError>)
    requires
        secret@.len() == 32,
    ensures
        match r {
            Ok(p) => jwe_plaintext(token@, secret@) == Some(p@),
            Err(e) => e == DelegationError::JWEInvalid && jwe_plaintext(token@, secret@) is None,
        },
{
    let bytes: [u8; 32] = secret.as_slice().try_into().expect("a decryption key has 32 bytes");
    let public = x25519_dalek::PublicKey::from(&x25519_dalek::StaticSecret::from(bytes));
    let jwk = okp_jwk("X25519", &public.as_bytes().to_vec(), Some(secret)).map_err(|_| JWEInvalid)?;
    let decrypter = ECDH_ES_A128KW.decrypter_from_jwk(&jwk).map_err(|_| JWEInvalid)?;
    let (payload, _header) = josekit::jwe::deserialize_compact(token, &decrypter).map_err(|_| JWEInvalid)?;
    String::from_utf8(payload).map_err(|_| JWEInvalid)
}

/// Relies on std::time::SystemTime: nanoseconds since the Unix epoch. The
/// bound restates that a Duration holds at most u64::MAX seconds.
#[verifier::external_body]
pub fn current_time_ns() -> (r: u128)
    ensures
        r < TIME_RANGE_NS,
{
    match std::time::SystemTime::now().duration_since(std::time::UNIX_EPOCH) {
        Ok(d) => d.as_nanos(),
        Err(_) => 0,
    }
}

} // verus!
