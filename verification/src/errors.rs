use vstd::prelude::*;

verus! {

/// The flat error taxonomy surfaced to callers of the library.
///
/// Every fallible operation reports one of these kinds; no recovery
/// happens inside the library.
#[derive(Clone, Copy, Debug, PartialEq, Eq, Structural)]
pub enum DelegationError {
    /// JSON or canonical binary encoding failed.
    Serialize,
    /// JSON, or canonical binary decoding of a credential value, failed.
    Deserialize,
    /// A base64url or similar textual decoding failed.
    Decoding,
    /// Issuance was requested with an empty permission set.
    EmptyPermissions,
    /// Issuance was requested with an empty operation set.
    EmptyOperations,
    /// A child requested a permission not present in its parent.
    PermissionNotGranted,
    /// A child requested more permissions than its parent holds.
    CannotEscalate,
    /// A witness count does not match the permission count.
    CardinalityMismatch,
    /// A delegator's subject does not equal the next issuer on the walk.
    ChainBroken,
    /// The terminal credential's owner, issuer and verifier id differ.
    InvalidRoot,
    /// A child operation is absent from the decrypted parent credential.
    OperationNotInherited,
    /// An accumulator membership check returned false for the pair at `index`.
    MembershipFailed { index: usize },
    /// Witness and element vectors have different lengths.
    LengthMismatch,
    /// A timestamp could not be parsed as an unsigned decimal.
    ParseError,
    /// The current time lies before the credential's issuance time.
    NotYetValid,
    /// The current time lies after the credential's expiry time.
    Expired,
    /// The credential's issuance time lies after its expiry time.
    Inverted,
    /// A presenter id was not found in the key directory.
    UnknownPresenter,
    /// A resource owner id was not found in the key directory.
    UnknownOwner,
    /// A compact JWS was malformed or its signature did not verify.
    JWSInvalid,
    /// A compact JWE was malformed or could not be decrypted.
    JWEInvalid,
    /// A parallel verification worker aborted abnormally.
    WorkerPanic,
    /// An element was added to the accumulator state twice.
    AlreadyPresent,
    /// A claim's scalar coincides with the negated accumulator secret key:
    /// the degenerate value that has no membership witness and cannot be
    /// removed from the accumulator.
    DegenerateScalar,
    /// An element was removed from the accumulator state while absent.
    Absent,
}

} // verus!
