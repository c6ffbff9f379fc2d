use vstd::prelude::*;
use crate::errors::AuthError;
use crate::hashing::{sha256_of, sha256_str};
use crate::models::FieldElement;

verus! {

/// The unsigned integer held big-endian in `h[off..off + 8]`.
pub open spec fn u64_be(h: Seq<u8>, off: int) -> int {
    (h[off] as int) * 0x100000000000000 + (h[off + 1] as int) * 0x1000000000000 + (h[off
        + 2] as int) * 0x10000000000 + (h[off + 3] as int) * 0x100000000 + (h[off + 4] as int)
        * 0x1000000 + (h[off + 5] as int) * 0x10000 + (h[off + 6] as int) * 0x100 + (h[off
        + 7] as int)
}

/// Element `i` of a commitment carries bytes `[8i, 8i + 8)` of the 32-byte
/// digest, big-endian, in its low word; its high words are zero.
pub open spec fn element_commits(e: FieldElement, h: Seq<u8>, i: int) -> bool {
    &&& e.w0 == u64_be(h, 8 * i)
    &&& e.w1 == 0
    &&& e.w2 == 0
    &&& e.w3 == 0
}

/// A four-element segment commits to digest `h` when every element carries
/// its eight-byte chunk exactly.
pub open spec fn commitment_matches(committed: Seq<FieldElement>, h: Seq<u8>) -> bool {
    &&& committed.len() == 4
    &&& forall|i: int| 0 <= i < 4 ==> element_commits(committed[i], h, i)
}

/// Reads the big-endian 64-bit integer at `h[off..off + 8]`.
pub fn u64_from_be(h: &Vec<u8>, off: usize) -> (r: u64)
    requires
        off + 8 <= h@.len(),
        off + 8 <= usize::MAX,
    ensures
        r as int == u64_be(h@, off as int),
{
    (h[off] as u64) * 0x100000000000000 + (h[off + 1] as u64) * 0x1000000000000 + (h[off
        + 2] as u64) * 0x10000000000 + (h[off + 3] as u64) * 0x100000000 + (h[off + 4] as u64)
        * 0x1000000 + (h[off + 5] as u64) * 0x10000 + (h[off + 6] as u64) * 0x100 + (h[off
        + 7] as u64)
}

/// Hashes the caller-presented challenge and requires exact equality with
/// the commitment embedded in the proof's public inputs. Any difference is a
/// definitive rejection: it indicates replay or a forged proof.
pub fn bind_challenge(challenge: &str, committed: &Vec<FieldElement>) -> (r: Result<
    (),
    AuthError,
>)
    requires
        committed@.len() == 4,
    ensures
        r is Ok <==> commitment_matches(committed@, sha256_of(challenge@)),
        r is Err ==> r == Err::<(), AuthError>(AuthError::ChallengeMismatch),
{
    let h = sha256_str(challenge);
    for i in 0..4usize
        invariant
            committed@.len() == 4,
            h@ == sha256_of(challenge@),
            h@.len() == 32,
            forall|j: int| 0 <= j < i ==> element_commits(committed@[j], h@, j),
    {
        let e = committed[i];
        let expected = u64_from_be(&h, 8 * i);
        if e.w0 != expected || e.w1 != 0 || e.w2 != 0 || e.w3 != 0 {
            proof {
                assert(!element_commits(committed@[i as int], h@, i as int));
            }
            return Err(AuthError::ChallengeMismatch);
        }
    }
    Ok(())
}

} // verus!
