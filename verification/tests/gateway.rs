use lastlogin_gateway::contract::{Contract, SESSION_TTL_NS};
use lastlogin_gateway::errors::AuthError;
use lastlogin_gateway::models::{FieldElement, TokenClaims, VerifierConfig};
use sha2::Digest;

fn fresh_contract() -> Contract {
    Contract::new(
        VerifierConfig { key: vec![1, 2, 3] },
        "signer.example".to_string(),
    )
}

fn self_account() -> String {
    "gateway.example".to_string()
}

fn session_inputs() -> Vec<FieldElement> {
    let mut v = Vec::new();
    for i in 0..32u64 {
        v.push(FieldElement::from_u64(i));
    }
    v
}

#[test]
fn create_session_returns_hex_of_digest() {
    let mut c = fresh_contract();
    let me = self_account();
    let id = c
        .create_session("a@b.com".to_string(), "host1".to_string(), &me, &me, 0)
        .expect("authorized creation succeeds");
    let expected = hex::encode(sha2::Sha256::digest("a@b.comhost10".as_bytes()));
    assert_eq!(id, expected);
    assert_eq!(id.len(), 64);
    assert!(id.chars().all(|ch| ch.is_ascii_hexdigit() && !ch.is_ascii_uppercase()));

    let stored = c.get_session(id.clone()).expect("stored session is readable");
    assert_eq!(stored.email, "a@b.com");
    assert_eq!(stored.session_id, id);
    assert_eq!(stored.hostname, "host1");
    assert_eq!(stored.expires_at, SESSION_TTL_NS);
}

#[test]
fn create_session_unauthorized_leaves_store_unchanged() {
    let mut c = fresh_contract();
    let me = self_account();
    let id = c
        .create_session("a@b.com".to_string(), "host1".to_string(), &me, &me, 0)
        .unwrap();

    let intruder = "intruder.example".to_string();
    let r = c.create_session("x@y.com".to_string(), "host9".to_string(), &intruder, &me, 0);
    assert_eq!(r, Err(AuthError::Unauthorized));

    let stored = c.get_session(id).expect("prior session still present");
    assert_eq!(stored.email, "a@b.com");
    assert_eq!(stored.hostname, "host1");
}

#[test]
fn delete_session_is_idempotent() {
    let mut c = fresh_contract();
    let me = self_account();
    let id = c
        .create_session("a@b.com".to_string(), "host1".to_string(), &me, &me, 0)
        .unwrap();

    c.delete_session("no-such-id".to_string());
    assert!(c.get_session(id.clone()).is_some());

    c.delete_session(id.clone());
    assert!(c.get_session(id.clone()).is_none());
    c.delete_session(id.clone());
    assert!(c.get_session(id).is_none());
}

#[test]
fn expired_session_is_rejected_even_with_matching_hostname() {
    let mut c = fresh_contract();
    let me = self_account();
    let id = c
        .create_session("a@b.com".to_string(), "host1".to_string(), &me, &me, 0)
        .unwrap();
    // The session expires at SESSION_TTL_NS; present it one tick later, so
    // its expiry is exactly now - 1.
    let now = SESSION_TTL_NS + 1;
    let r = c.sign_with_lastlogin_session(
        true,
        session_inputs(),
        id.clone(),
        "host1".to_string(),
        1,
        now,
    );
    assert_eq!(r.err(), Some(AuthError::SessionExpired));
    assert!(!lastlogin_gateway::contract::is_session_valid(&c, id, "host1".to_string(), now));
}

#[test]
fn session_sign_end_to_end_and_hostname_mismatch() {
    let mut c = fresh_contract();
    let me = self_account();
    let id = c
        .create_session("a@b.com".to_string(), "host1".to_string(), &me, &me, 0)
        .unwrap();

    let req = c
        .sign_with_lastlogin_session(true, session_inputs(), id.clone(), "host1".to_string(), 7, 1)
        .expect("all checks pass");
    assert_eq!(req.key_version, 0);
    let expected_payload: Vec<u8> = (0..32u8).collect();
    assert_eq!(req.payload, expected_payload);
    let expected_path =
        format!("{{\"chain\":7,\"meta\":{{\"email\":\"a@b.com\",\"user_id\":\"{id}\"}}}}");
    assert_eq!(req.path, expected_path);

    let again = c
        .sign_with_lastlogin_session(true, session_inputs(), id.clone(), "host1".to_string(), 7, 1)
        .unwrap();
    assert_eq!(again.path, req.path);

    let r = c.sign_with_lastlogin_session(true, session_inputs(), id, "host2".to_string(), 7, 1);
    assert_eq!(r.err(), Some(AuthError::HostnameMismatch));
}

#[test]
fn session_sign_rejections() {
    let mut c = fresh_contract();
    let me = self_account();
    let id = c
        .create_session("a@b.com".to_string(), "host1".to_string(), &me, &me, 0)
        .unwrap();

    let r = c.sign_with_lastlogin_session(
        true,
        session_inputs(),
        "unknown".to_string(),
        "host1".to_string(),
        1,
        1,
    );
    assert_eq!(r.err(), Some(AuthError::SessionNotFound));

    let r = c.sign_with_lastlogin_session(
        false,
        session_inputs(),
        id.clone(),
        "host1".to_string(),
        1,
        1,
    );
    assert_eq!(r.err(), Some(AuthError::ProofInvalid));

    let mut short = session_inputs();
    short.pop();
    let r = c.sign_with_lastlogin_session(true, short, id, "host1".to_string(), 1, 1);
    assert_eq!(r.err(), Some(AuthError::MalformedInputs));
}

#[test]
fn session_payload_truncates_to_low_byte() {
    let mut c = fresh_contract();
    let me = self_account();
    let id = c
        .create_session("a@b.com".to_string(), "host1".to_string(), &me, &me, 0)
        .unwrap();
    let mut inputs = session_inputs();
    inputs[0] = FieldElement::from_u64(0x1ff);
    inputs[1] = FieldElement { w0: 0x1234_5678_9abc_def0, w1: 5, w2: 6, w3: 7 };
    let req = c
        .sign_with_lastlogin_session(true, inputs, id, "host1".to_string(), 1, 1)
        .unwrap();
    assert_eq!(req.payload[0], 0xff);
    assert_eq!(req.payload[1], 0xf0);
}

fn commitment_for(challenge: &str) -> Vec<FieldElement> {
    let digest = sha2::Sha256::digest(challenge.as_bytes());
    let mut out = Vec::new();
    for i in 0..4 {
        let mut chunk = [0u8; 8];
        chunk.copy_from_slice(&digest[8 * i..8 * i + 8]);
        out.push(FieldElement::from_u64(u64::from_be_bytes(chunk)));
    }
    out
}

fn proof_inputs(challenge: &str) -> Vec<FieldElement> {
    let mut v = Vec::new();
    for i in 0..64u64 {
        v.push(FieldElement::from_u64(1000 + i));
    }
    v.extend(commitment_for(challenge));
    for i in 0..32u64 {
        v.push(FieldElement::from_u64(0x300 + i));
    }
    v
}

fn claims(expires_at: u64) -> TokenClaims {
    TokenClaims {
        subject: "subj".to_string(),
        email: "a@b.com".to_string(),
        issuer: "issuer.example".to_string(),
        audience: "aud-1".to_string(),
        expires_at,
    }
}

#[test]
fn proof_challenge_sign_end_to_end() {
    let c = fresh_contract();
    let req = c
        .sign_with_proof_challenge(
            true,
            proof_inputs("nonce-123"),
            "nonce-123".to_string(),
            Some(claims(1000)),
            9,
            5,
        )
        .expect("all checks pass");
    assert_eq!(req.key_version, 0);
    let expected_payload: Vec<u8> = (0..32u8).collect();
    assert_eq!(req.payload, expected_payload);
    assert_eq!(
        req.path,
        "{\"chain\":9,\"meta\":{\"email\":\"a@b.com\",\"user_id\":\"aud-1\"}}"
    );

    let again = c
        .sign_with_proof_challenge(
            true,
            proof_inputs("nonce-123"),
            "nonce-123".to_string(),
            Some(claims(1000)),
            9,
            5,
        )
        .unwrap();
    assert_eq!(again.path, req.path);
}

#[test]
fn tampered_challenge_segment_is_rejected() {
    let c = fresh_contract();
    for slot in 64..68 {
        let mut inputs = proof_inputs("nonce-123");
        inputs[slot] = FieldElement { w0: inputs[slot].w0 ^ 1, ..inputs[slot] };
        let r = c.sign_with_proof_challenge(
            true,
            inputs,
            "nonce-123".to_string(),
            Some(claims(1000)),
            9,
            5,
        );
        assert_eq!(r.err(), Some(AuthError::ChallengeMismatch), "tampered slot {slot}");
    }
    // A nonzero high word is also a mismatch, never a silent pass.
    let mut inputs = proof_inputs("nonce-123");
    inputs[65] = FieldElement { w1: 1, ..inputs[65] };
    let r = c.sign_with_proof_challenge(
        true,
        inputs,
        "nonce-123".to_string(),
        Some(claims(1000)),
        9,
        5,
    );
    assert_eq!(r.err(), Some(AuthError::ChallengeMismatch));
}

#[test]
fn wrong_challenge_string_is_rejected() {
    let c = fresh_contract();
    let r = c.sign_with_proof_challenge(
        true,
        proof_inputs("nonce-123"),
        "nonce-124".to_string(),
        Some(claims(1000)),
        9,
        5,
    );
    assert_eq!(r.err(), Some(AuthError::ChallengeMismatch));
}

#[test]
fn proof_variant_rejections() {
    let c = fresh_contract();

    let r = c.sign_with_proof_challenge(
        false,
        proof_inputs("n"),
        "n".to_string(),
        Some(claims(1000)),
        1,
        5,
    );
    assert_eq!(r.err(), Some(AuthError::ProofInvalid));

    let mut short = proof_inputs("n");
    short.pop();
    let r = c.sign_with_proof_challenge(true, short, "n".to_string(), Some(claims(1000)), 1, 5);
    assert_eq!(r.err(), Some(AuthError::MalformedInputs));

    let r = c.sign_with_proof_challenge(true, proof_inputs("n"), "n".to_string(), None, 1, 5);
    assert_eq!(r.err(), Some(AuthError::TokenDecodeFailed));

    let r = c.sign_with_proof_challenge(
        true,
        proof_inputs("n"),
        "n".to_string(),
        Some(claims(5)),
        1,
        5,
    );
    assert_eq!(r.err(), Some(AuthError::TokenExpired));
}

#[test]
fn reinitialize_requires_own_identity() {
    let mut c = fresh_contract();
    let me = self_account();
    let intruder = "intruder.example".to_string();

    let r = c.reinitialize(
        &intruder,
        &me,
        VerifierConfig { key: vec![9] },
        "other.example".to_string(),
    );
    assert_eq!(r, Err(AuthError::Unauthorized));
    assert_eq!(c.verifier.key, vec![1, 2, 3]);
    assert_eq!(c.signer_contract_id, "signer.example");

    let id = c
        .create_session("a@b.com".to_string(), "host1".to_string(), &me, &me, 0)
        .unwrap();
    let r = c.reinitialize(&me, &me, VerifierConfig { key: vec![9] }, "other.example".to_string());
    assert_eq!(r, Ok(()));
    assert_eq!(c.verifier.key, vec![9]);
    assert_eq!(c.signer_contract_id, "other.example");
    assert!(c.get_session(id).is_some(), "reinitialize leaves sessions untouched");
}
