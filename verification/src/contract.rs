use vstd::prelude::*;
use crate::challenge::{bind_challenge, commitment_matches};
use crate::errors::AuthError;
use crate::extractor::{
    challenge_segment_of, extract_proof_parts, extract_session_payload, proof_payload_of,
    session_payload_of, PROOF_INPUT_LEN, SESSION_INPUT_LEN,
};
use crate::hashing::{chars_to_string, hex_lower, hex_of, sha256_of, sha256_str};
use crate::models::{
    DerivationPath, FieldElement, IdentityAssertion, LastLoginSession, Meta, SessionView,
    SignRequest, TokenClaims, VerifiedIdentity, VerifierConfig,
};
use crate::numeric::{dec_str, u64_to_chars};
use crate::path::canonical_path_chars;
use crate::session::{lookup, SessionStore};
use vstd::string::StringExecFns;

verus! {

/// How long an issued session lives, in nanoseconds: fourteen days.
pub const SESSION_TTL_NS: u64 = 14 * 24 * 60 * 60 * 1000000000;

/// The identifier a session issued for `email` and `hostname` at `now`
/// receives: the lowercase hex rendering of the digest of the three,
/// concatenated, with `now` in canonical decimal. Uniqueness rests on the
/// digest's collision resistance plus timestamp entropy — an accepted
/// probabilistic assumption, not something checked.
pub open spec fn session_id_chars(email: Seq<char>, hostname: Seq<char>, now: u64) -> Seq<char> {
    hex_of(sha256_of(email + hostname + dec_str(now as nat)))
}

/// The session-variant admission decision over a store's records: the
/// session must exist, be bound to the presented hostname, and expire
/// strictly after `now`. Checks short-circuit in that order.
pub open spec fn session_check(
    records: Seq<LastLoginSession>,
    session_id: Seq<char>,
    hostname: Seq<char>,
    now: u64,
) -> Result<SessionView, AuthError> {
    match lookup(records, session_id) {
        None => Err(AuthError::SessionNotFound),
        Some(s) => if s.hostname != hostname {
            Err(AuthError::HostnameMismatch)
        } else if s.expires_at <= now {
            Err(AuthError::SessionExpired)
        } else {
            Ok(s)
        },
    }
}

/// The mathematical content of decoded token claims.
pub ghost struct ClaimsView {
    pub subject: Seq<char>,
    pub email: Seq<char>,
    pub issuer: Seq<char>,
    pub audience: Seq<char>,
    pub expires_at: u64,
}

impl View for TokenClaims {
    type V = ClaimsView;

    open spec fn view(&self) -> ClaimsView {
        ClaimsView {
            subject: self.subject@,
            email: self.email@,
            issuer: self.issuer@,
            audience: self.audience@,
            expires_at: self.expires_at,
        }
    }
}

/// The decoder's outcome, viewed mathematically.
pub open spec fn claims_view(claims: Option<TokenClaims>) -> Option<ClaimsView> {
    match claims {
        None => None,
        Some(c) => Some(c@),
    }
}

/// What identity verification yields on success: the verified email, the
/// scoping user identifier, and the extracted signing payload.
pub type IdentityFacts = (Seq<char>, Seq<char>, Seq<u8>);

/// The proof variant's identity decision. The external proof verifier's
/// verdict and the external token decoder's claims enter as plain values;
/// the challenge binding and the expiry check are decided here.
pub open spec fn proof_identity_outcome(
    proof_accepted: bool,
    inputs: Seq<FieldElement>,
    challenge: Seq<char>,
    claims: Option<ClaimsView>,
    now: u64,
) -> Result<IdentityFacts, AuthError> {
    if !proof_accepted {
        Err(AuthError::ProofInvalid)
    } else if inputs.len() < PROOF_INPUT_LEN {
        Err(AuthError::MalformedInputs)
    } else if !commitment_matches(challenge_segment_of(inputs), sha256_of(challenge)) {
        Err(AuthError::ChallengeMismatch)
    } else {
        match claims {
            None => Err(AuthError::TokenDecodeFailed),
            Some(c) => if c.expires_at <= now {
                Err(AuthError::TokenExpired)
            } else {
                Ok((c.email, c.audience, proof_payload_of(inputs)))
            },
        }
    }
}

/// The session variant's identity decision: session admission first, then
/// the externally supplied proof verdict, then the variant's input layout.
pub open spec fn session_identity_outcome(
    records: Seq<LastLoginSession>,
    session_id: Seq<char>,
    hostname: Seq<char>,
    now: u64,
    proof_accepted: bool,
    inputs: Seq<FieldElement>,
) -> Result<IdentityFacts, AuthError> {
    match session_check(records, session_id, hostname, now) {
        Err(e) => Err(e),
        Ok(s) => if !proof_accepted {
            Err(AuthError::ProofInvalid)
        } else if inputs.len() < SESSION_INPUT_LEN {
            Err(AuthError::MalformedInputs)
        } else {
            Ok((s.email, s.session_id, session_payload_of(inputs)))
        },
    }
}

/// A signing call's required outcome, given its variant's identity
/// decision: the extracted payload and the canonical derivation path.
pub open spec fn sign_outcome(id: Result<IdentityFacts, AuthError>, chain: u64) -> Result<
    (Seq<u8>, Seq<char>),
    AuthError,
> {
    match id {
        Err(e) => Err(e),
        Ok(facts) => Ok((facts.2, canonical_path_chars(chain, facts.0, facts.1))),
    }
}

/// A verified identity, viewed mathematically.
pub open spec fn identity_view(r: Result<VerifiedIdentity, AuthError>) -> Result<
    IdentityFacts,
    AuthError,
> {
    match r {
        Ok(id) => Ok((id.email@, id.user_id@, id.payload@)),
        Err(e) => Err(e),
    }
}

/// A signing result, viewed mathematically, with its fixed key version
/// checked alongside.
pub open spec fn request_view(r: Result<SignRequest, AuthError>) -> Result<
    (Seq<u8>, Seq<char>),
    AuthError,
> {
    match r {
        Ok(req) => Ok((req.payload@, req.path@)),
        Err(e) => Err(e),
    }
}

/// The authorization gateway's durable state: the verifier configuration,
/// the signer's identity, and the session store. Nothing else is persisted.
pub struct Contract {
    pub verifier: VerifierConfig,
    pub signer_contract_id: String,
    pub sessions: SessionStore,
}

impl Contract {
    /// A fresh gateway with an empty session store.
    pub fn new(verifier: VerifierConfig, signer_contract_id: String) -> (r: Contract)
        ensures
            r.verifier == verifier,
            r.signer_contract_id@ == signer_contract_id@,
            r.sessions.records@.len() == 0,
    {
        Contract { verifier, signer_contract_id, sessions: SessionStore::new() }
    }

    /// Replaces the verifier configuration and the signer target without
    /// touching the session store. Only the gateway's own identity may do
    /// so: `caller` and `self_account` come from the host's caller-identity
    /// oracle.
    pub fn reinitialize(
        &mut self,
        caller: &String,
        self_account: &String,
        verifier: VerifierConfig,
        signer_contract_id: String,
    ) -> (r: Result<(), AuthError>)
        ensures
            caller@ == self_account@ ==> r is Ok && final(self).verifier == verifier && final(self).signer_contract_id@ == signer_contract_id@ && final(self).sessions == old(self).sessions,
            caller@ != self_account@ ==> r == Err::<(), AuthError>(AuthError::Unauthorized)
                && *final(self) == *old(self),
    {
        if !(*caller == *self_account) {
            return Err(AuthError::Unauthorized);
        }
        self.verifier = verifier;
        self.signer_contract_id = signer_contract_id;
        Ok(())
    }

    /// Issues a session for `email` bound to `hostname`, expiring a fixed
    /// fourteen days after `now`. Only the gateway's own identity may issue
    /// sessions; an unauthorized call leaves the gateway exactly as it was.
    pub fn create_session(
        &mut self,
        email: String,
        hostname: String,
        caller: &String,
        self_account: &String,
        now: u64,
    ) -> (r: Result<String, AuthError>)
        requires
            now <= u64::MAX - SESSION_TTL_NS,
        ensures
            caller@ != self_account@ ==> r == Err::<String, AuthError>(AuthError::Unauthorized)
                && *final(self) == *old(self),
            caller@ == self_account@ ==> {
                &&& r is Ok
                &&& r matches Ok(sid) ==> sid@ == session_id_chars(email@, hostname@, now)
                &&& lookup(final(self).sessions.records@, session_id_chars(email@, hostname@, now))
                    == Some(
                    SessionView {
                        email: email@,
                        session_id: session_id_chars(email@, hostname@, now),
                        hostname: hostname@,
                        expires_at: (now + SESSION_TTL_NS) as u64,
                    },
                )
                &&& forall|k: Seq<char>|
                    k != session_id_chars(email@, hostname@, now) ==> lookup(
                        final(self).sessions.records@,
                        k,
                    ) == lookup(old(self).sessions.records@, k)
                &&& final(self).verifier == old(self).verifier
                &&& final(self).signer_contract_id@ == old(self).signer_contract_id@
            },
    {
        if !(*caller == *self_account) {
            return Err(AuthError::Unauthorized);
        }
        let mut keyed = email.clone();
        keyed.append(hostname.as_str());
        let now_chars = u64_to_chars(now);
        let now_str = chars_to_string(&now_chars);
        keyed.append(now_str.as_str());
        let digest = sha256_str(keyed.as_str());
        let session_id = hex_lower(&digest);
        let session = LastLoginSession {
            email,
            session_id: session_id.clone(),
            hostname,
            expires_at: now + SESSION_TTL_NS,
        };
        self.sessions.put(session);
        Ok(session_id)
    }

    /// Removes whatever is stored under `session_id`; removing an absent
    /// identifier succeeds and changes nothing.
    pub fn delete_session(&mut self, session_id: String)
        ensures
            lookup(final(self).sessions.records@, session_id@) is None,
            forall|k: Seq<char>|
                k != session_id@ ==> lookup(final(self).sessions.records@, k) == lookup(
                    old(self).sessions.records@,
                    k,
                ),
            lookup(old(self).sessions.records@, session_id@) is None ==> final(self).sessions.records@ == old(self).sessions.records@,
            final(self).verifier == old(self).verifier,
            final(self).signer_contract_id@ == old(self).signer_contract_id@,
    {
        self.sessions.delete(&session_id);
    }

    /// Pure lookup with no expiry filtering: expiry is checked lazily by
    /// the admission logic, never here.
    pub fn get_session(&self, session_id: String) -> (r: Option<LastLoginSession>)
        ensures
            match r {
                Some(s) => lookup(self.sessions.records@, session_id@) == Some(s@),
                None => lookup(self.sessions.records@, session_id@) is None,
            },
    {
        self.sessions.get(&session_id)
    }
}

/// Admits or rejects a presented session: it must exist, be bound to the
/// presented hostname, and not be expired at `now`, in that order.
pub fn verify_lastlogin_token(
    contract: &Contract,
    session_id: &str,
    hostname: &str,
    now: u64,
) -> (r: Result<LastLoginSession, AuthError>)
    ensures
        r matches Ok(s) ==> session_check(contract.sessions.records@, session_id@, hostname@, now)
            == Ok::<SessionView, AuthError>(s@),
        r matches Err(e) ==> session_check(contract.sessions.records@, session_id@, hostname@, now)
            == Err::<SessionView, AuthError>(e),
{
    let sid = String::from_str(session_id);
    let session = match contract.sessions.get(&sid) {
        None => {
            return Err(AuthError::SessionNotFound);
        },
        Some(s) => s,
    };
    let host = String::from_str(hostname);
    if !(session.hostname == host) {
        return Err(AuthError::HostnameMismatch);
    }
    if session.expires_at <= now {
        return Err(AuthError::SessionExpired);
    }
    Ok(session)
}

/// Whether a presented session would be admitted at `now`.
pub fn is_session_valid(
    contract: &Contract,
    session_id: String,
    hostname: String,
    now: u64,
) -> (r: bool)
    ensures
        r == (session_check(contract.sessions.records@, session_id@, hostname@, now) is Ok),
{
    match verify_lastlogin_token(contract, session_id.as_str(), hostname.as_str(), now) {
        Ok(_) => true,
        Err(_) => false,
    }
}

impl Contract {
    /// Resolves either authentication strategy to the identity the request
    /// is signed for, together with the variant's extracted payload. The
    /// two variants read genuinely different wire formats; see the
    /// extractor's constants.
    pub fn verify_identity(
        &self,
        proof_accepted: bool,
        public_inputs: &Vec<FieldElement>,
        assertion: IdentityAssertion,
        now: u64,
    ) -> (r: Result<VerifiedIdentity, AuthError>)
        ensures
            identity_view(r) == match assertion {
                IdentityAssertion::ProofWithChallenge { challenge, claims } =>
                    proof_identity_outcome(
                    proof_accepted,
                    public_inputs@,
                    challenge@,
                    claims_view(claims),
                    now,
                ),
                IdentityAssertion::SessionBacked { session_id, hostname } =>
                    session_identity_outcome(
                    self.sessions.records@,
                    session_id@,
                    hostname@,
                    now,
                    proof_accepted,
                    public_inputs@,
                ),
            },
    {
        match assertion {
            IdentityAssertion::ProofWithChallenge { challenge, claims } => {
                if !proof_accepted {
                    return Err(AuthError::ProofInvalid);
                }
                let parts = match extract_proof_parts(public_inputs) {
                    Err(e) => {
                        return Err(e);
                    },
                    Ok(parts) => parts,
                };
                let (committed, payload) = parts;
                match bind_challenge(challenge.as_str(), &committed) {
                    Err(e) => {
                        return Err(e);
                    },
                    Ok(()) => {},
                }
                let decoded = match claims {
                    None => {
                        return Err(AuthError::TokenDecodeFailed);
                    },
                    Some(c) => c,
                };
                if decoded.expires_at <= now {
                    return Err(AuthError::TokenExpired);
                }
                Ok(VerifiedIdentity { email: decoded.email, user_id: decoded.audience, payload })
            },
            IdentityAssertion::SessionBacked { session_id, hostname } => {
                let session = match verify_lastlogin_token(
                    self,
                    session_id.as_str(),
                    hostname.as_str(),
                    now,
                ) {
                    Err(e) => {
                        return Err(e);
                    },
                    Ok(s) => s,
                };
                if !proof_accepted {
                    return Err(AuthError::ProofInvalid);
                }
                let payload = match extract_session_payload(public_inputs) {
                    Err(e) => {
                        return Err(e);
                    },
                    Ok(p) => p,
                };
                Ok(VerifiedIdentity { email: session.email, user_id: session.session_id, payload })
            },
        }
    }

    /// The session-variant signing entry point. The host runs the external
    /// proof verifier over the caller's proof and public inputs and hands
    /// in its verdict; every admission check is mandatory and
    /// short-circuits on first failure. Gateway state is never changed.
    pub fn sign_with_lastlogin_session(
        &self,
        proof_accepted: bool,
        public_inputs: Vec<FieldElement>,
        session_id: String,
        hostname: String,
        chain: u64,
        now: u64,
    ) -> (r: Result<SignRequest, AuthError>)
        ensures
            request_view(r) == sign_outcome(
                session_identity_outcome(
                    self.sessions.records@,
                    session_id@,
                    hostname@,
                    now,
                    proof_accepted,
                    public_inputs@,
                ),
                chain,
            ),
            r matches Ok(req) ==> req.key_version == 0 && req.payload@.len() == 32,
    {
        let identity = match self.verify_identity(
            proof_accepted,
            &public_inputs,
            IdentityAssertion::SessionBacked { session_id, hostname },
            now,
        ) {
            Err(e) => {
                return Err(e);
            },
            Ok(id) => id,
        };
        let path = DerivationPath::build(
            chain,
            Meta { email: identity.email, user_id: identity.user_id },
        );
        let canonical = path.canonical();
        Ok(SignRequest { payload: identity.payload, path: canonical, key_version: 0 })
    }

    /// The proof-variant signing entry point. The host hands in the
    /// external proof verifier's verdict and the external token decoder's
    /// claims (or `None` when decoding failed); the challenge itself is
    /// hashed here and held against the commitment in the public inputs.
    /// Gateway state is never changed.
    pub fn sign_with_proof_challenge(
        &self,
        proof_accepted: bool,
        public_inputs: Vec<FieldElement>,
        challenge: String,
        claims: Option<TokenClaims>,
        chain: u64,
        now: u64,
    ) -> (r: Result<SignRequest, AuthError>)
        ensures
            request_view(r) == sign_outcome(
                proof_identity_outcome(
                    proof_accepted,
                    public_inputs@,
                    challenge@,
                    claims_view(claims),
                    now,
                ),
                chain,
            ),
            r matches Ok(req) ==> req.key_version == 0 && req.payload@.len() == 32,
    {
        let identity = match self.verify_identity(
            proof_accepted,
            &public_inputs,
            IdentityAssertion::ProofWithChallenge { challenge, claims },
            now,
        ) {
            Err(e) => {
                return Err(e);
            },
            Ok(id) => id,
        };
        let path = DerivationPath::build(
            chain,
            Meta { email: identity.email, user_id: identity.user_id },
        );
        let canonical = path.canonical();
        Ok(SignRequest { payload: identity.payload, path: canonical, key_version: 0 })
    }
}

} // verus!
