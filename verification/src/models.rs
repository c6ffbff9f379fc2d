use vstd::prelude::*;

verus! {

/// One element of the proof circuit's public-input sequence: a 256-bit
/// unsigned integer held as four 64-bit words, least significant first.
#[derive(Clone, Copy, Debug, PartialEq, Eq, Structural)]
pub struct FieldElement {
    /// Bits 0..64.
    pub w0: u64,
    /// Bits 64..128.
    pub w1: u64,
    /// Bits 128..192.
    pub w2: u64,
    /// Bits 192..256.
    pub w3: u64,
}

impl FieldElement {
    /// The element's low byte, the lossy truncation used for payload slots.
    pub open spec fn low_byte(self) -> u8 {
        self.w0 as u8
    }

    /// An element holding a value that fits in 64 bits.
    pub fn from_u64(w: u64) -> (r: FieldElement)
        ensures
            r == (FieldElement { w0: w, w1: 0, w2: 0, w3: 0 }),
    {
        FieldElement { w0: w, w1: 0, w2: 0, w3: 0 }
    }
}

/// Verified-identity metadata scoped into the derivation path.
pub struct Meta {
    pub email: String,
    pub user_id: String,
}

/// The scoping input for the remote signer's key derivation: a chain
/// identifier together with the verified identity's metadata.
pub struct DerivationPath {
    pub chain: u64,
    pub meta: Meta,
}

/// The request handed to the external signer: a 32-byte payload, the
/// canonical derivation path, and a key version.
pub struct SignRequest {
    /// Always 32 bytes; see the contracts of the functions that build it.
    pub payload: Vec<u8>,
    pub path: String,
    pub key_version: u32,
}

/// A server-issued credential binding an email identity to a calling host,
/// valid until `expires_at` (absolute nanosecond timestamp).
pub struct LastLoginSession {
    pub email: String,
    pub session_id: String,
    pub hostname: String,
    pub expires_at: u64,
}

/// The mathematical content of a stored session.
pub ghost struct SessionView {
    pub email: Seq<char>,
    pub session_id: Seq<char>,
    pub hostname: Seq<char>,
    pub expires_at: u64,
}

impl View for LastLoginSession {
    type V = SessionView;

    open spec fn view(&self) -> SessionView {
        SessionView {
            email: self.email@,
            session_id: self.session_id@,
            hostname: self.hostname@,
            expires_at: self.expires_at,
        }
    }
}

/// Claims carried by a decoded identity token. Decoding itself is the
/// external token decoder's work; the decoded claims enter as plain values.
pub struct TokenClaims {
    pub subject: String,
    pub email: String,
    pub issuer: String,
    pub audience: String,
    /// Absolute expiry timestamp of the token.
    pub expires_at: u64,
}

/// The output both authentication strategies converge on: the identity the
/// request is signed for, and the payload extracted from the public inputs.
pub struct VerifiedIdentity {
    pub email: String,
    /// The token's audience in the proof variant; the session identifier in
    /// the session variant.
    pub user_id: String,
    /// Always 32 bytes; the signing payload read from the public inputs.
    pub payload: Vec<u8>,
}

/// Configuration of the external proof verifier, carried opaquely: the
/// gateway stores and replaces it but never reads inside it.
pub struct VerifierConfig {
    pub key: Vec<u8>,
}

/// The two authentication strategies, as alternatives converging on one
/// contract.
pub enum IdentityAssertion {
    /// A zero-knowledge proof whose public inputs commit to the hash of
    /// `challenge`; `claims` is what the external decoder extracted from the
    /// challenge, or `None` when decoding failed.
    ProofWithChallenge { challenge: String, claims: Option<TokenClaims> },
    /// A stored session presented together with the calling hostname.
    SessionBacked { session_id: String, hostname: String },
}

} // verus!
