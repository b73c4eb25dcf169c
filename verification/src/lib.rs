//! Cryptographic core of a transitive delegation credential system.
//!
//! Two schemes are implemented side by side: an accumulator-based scheme
//! whose credentials carry membership witnesses for every claim, and a
//! signature-chained scheme whose credentials embed the parent credential
//! as a JWE encrypted for the resource owner.

pub mod accumulator_manager;
pub mod accumulator_state;
pub mod accumulator_utils;
pub mod accumulator_verifier;
pub mod dlt_sim;
pub mod errors;
pub mod jose;
pub mod json;
pub mod numbers;
pub mod our_delegation;
pub mod our_delegation_credential;
pub mod our_delegator;
pub mod our_issuer;
pub mod our_verifier;
pub mod pjv_delegation_credential;
pub mod pjv_delegator;
pub mod pjv_issuer_verifier;
pub mod pjv_signature;
pub mod retention;
pub mod text;
pub mod timing;
pub mod utils;
pub mod verifiable_credential;
pub mod verifiable_presentation;
