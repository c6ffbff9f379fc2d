//! Authorization gateway for a remote threshold-signing service.
//!
//! The library decides whether a caller may trigger a high-value signing
//! operation. Two authentication strategies are supported: a zero-knowledge
//! proof of identity bound to a freshness challenge, and a server-issued,
//! expiring session bound to a caller-supplied hostname. Both converge on a
//! canonical derivation path that scopes the remote signer's key derivation.
//!
//! External collaborators (the proof verifier's verdict, the identity-token
//! decoder's claims, the ambient clock and the caller-identity oracle) enter
//! as plain values; the hashing and hex-encoding collaborators are called
//! through contracted wrappers.

pub mod errors;
pub mod models;
pub mod numeric;
pub mod hashing;
pub mod extractor;
pub mod challenge;
pub mod path;
pub mod session;
pub mod contract;
pub mod laws;
