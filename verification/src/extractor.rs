use vstd::prelude::*;
use crate::errors::AuthError;
use crate::models::FieldElement;

verus! {

/// Number of elements the session-variant wire format requires: the signing
/// payload sits in the low bytes of elements `[0, 32)`.
pub const SESSION_INPUT_LEN: usize = 32;

/// Number of elements the proof-variant wire format requires: elements
/// `[64, 68)` hold the challenge-hash commitment and elements `[68, 100)`
/// hold the signing payload, one low byte each.
pub const PROOF_INPUT_LEN: usize = 100;

/// First element of the proof variant's challenge-hash segment.
pub const CHALLENGE_SEGMENT_START: usize = 64;

/// One past the last element of the proof variant's challenge-hash segment.
pub const CHALLENGE_SEGMENT_END: usize = 68;

/// First element of the proof variant's payload segment.
pub const PROOF_PAYLOAD_START: usize = 68;

/// The session variant's signing payload: the low byte of each of the first
/// 32 elements. Elements above 255 are accepted and silently truncated; the
/// circuit restricts their range upstream.
pub open spec fn session_payload_of(inputs: Seq<FieldElement>) -> Seq<u8> {
    Seq::new(32, |i: int| inputs[i].low_byte())
}

/// The proof variant's signing payload: the low byte of each element in
/// `[68, 100)`, in order.
pub open spec fn proof_payload_of(inputs: Seq<FieldElement>) -> Seq<u8> {
    Seq::new(32, |i: int| inputs[68 + i].low_byte())
}

/// The proof variant's challenge-hash commitment: elements `[64, 68)`.
pub open spec fn challenge_segment_of(inputs: Seq<FieldElement>) -> Seq<FieldElement> {
    inputs.subrange(64, 68)
}

/// Reads the session variant's payload, checking the variant's fixed layout
/// first: shorter input is rejected as malformed rather than sliced blindly.
pub fn extract_session_payload(inputs: &Vec<FieldElement>) -> (r: Result<Vec<u8>, AuthError>)
    ensures
        r is Ok <==> inputs@.len() >= SESSION_INPUT_LEN,
        r matches Ok(p) ==> p@ == session_payload_of(inputs@),
        r is Err ==> r == Err::<Vec<u8>, AuthError>(AuthError::MalformedInputs),
{
    if inputs.len() < SESSION_INPUT_LEN {
        return Err(AuthError::MalformedInputs);
    }
    let mut payload: Vec<u8> = Vec::new();
    for i in 0..SESSION_INPUT_LEN
        invariant
            inputs@.len() >= SESSION_INPUT_LEN,
            payload@.len() == i,
            forall|j: int| 0 <= j < i ==> payload@[j] == inputs@[j].low_byte(),
    {
        payload.push(#[verifier::truncate] (inputs[i].w0 as u8));
    }
    proof {
        assert(payload@ =~= session_payload_of(inputs@));
    }
    Ok(payload)
}

/// Reads the proof variant's two segments, checking the variant's fixed
/// layout first. Returns the challenge-hash commitment and the payload.
pub fn extract_proof_parts(inputs: &Vec<FieldElement>) -> (r: Result<
    (Vec<FieldElement>, Vec<u8>),
    AuthError,
>)
    ensures
        r is Ok <==> inputs@.len() >= PROOF_INPUT_LEN,
        r matches Ok(parts) ==> parts.0@ == challenge_segment_of(inputs@) && parts.1@
            == proof_payload_of(inputs@),
        r is Err ==> r == Err::<(Vec<FieldElement>, Vec<u8>), AuthError>(
            AuthError::MalformedInputs,
        ),
{
    if inputs.len() < PROOF_INPUT_LEN {
        return Err(AuthError::MalformedInputs);
    }
    let mut committed: Vec<FieldElement> = Vec::new();
    for i in CHALLENGE_SEGMENT_START..CHALLENGE_SEGMENT_END
        invariant
            inputs@.len() >= PROOF_INPUT_LEN,
            committed@.len() == i - CHALLENGE_SEGMENT_START,
            forall|j: int|
                0 <= j < i - CHALLENGE_SEGMENT_START ==> committed@[j] == inputs@[64 + j],
    {
        committed.push(inputs[i]);
    }
    let mut payload: Vec<u8> = Vec::new();
    for i in PROOF_PAYLOAD_START..PROOF_INPUT_LEN
        invariant
            inputs@.len() >= PROOF_INPUT_LEN,
            payload@.len() == i - PROOF_PAYLOAD_START,
            forall|j: int|
                0 <= j < i - PROOF_PAYLOAD_START ==> payload@[j] == inputs@[68 + j].low_byte(),
    {
        payload.push(#[verifier::truncate] (inputs[i].w0 as u8));
    }
    proof {
        assert(committed@ =~= challenge_segment_of(inputs@));
        assert(payload@ =~= proof_payload_of(inputs@));
    }
    Ok((committed, payload))
}

} // verus!
