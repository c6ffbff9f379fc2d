use vstd::prelude::*;

verus! {

/// Why an authorization call was rejected. Every failure is terminal for the
/// current call: nothing is retried and no partial state is committed.
#[derive(Clone, Copy, Debug, PartialEq, Eq, Structural)]
pub enum AuthError {
    /// The external proof verifier rejected the proof.
    ProofInvalid,
    /// The public-input sequence is shorter than the variant's fixed layout.
    MalformedInputs,
    /// The hash of the presented challenge differs from the commitment
    /// embedded in the proof's public inputs.
    ChallengeMismatch,
    /// The challenge could not be decoded as an identity token.
    TokenDecodeFailed,
    /// The identity token's expiry is not in the future.
    TokenExpired,
    /// No session is stored under the given identifier.
    SessionNotFound,
    /// The stored session is bound to a different hostname.
    HostnameMismatch,
    /// The stored session's expiry is not in the future.
    SessionExpired,
    /// The caller is not the trusted session-issuing authority.
    Unauthorized,
    /// Reserved for unrepresentable input to the canonical serializer; the
    /// verified builder never produces it.
    SerializationFailed,
}

} // verus!
