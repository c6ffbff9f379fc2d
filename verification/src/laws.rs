use vstd::prelude::*;
use crate::challenge::{commitment_matches, element_commits, u64_be};
use crate::contract::{session_check, sign_outcome, request_view, IdentityFacts};
use crate::errors::AuthError;
use crate::models::{FieldElement, LastLoginSession, Meta, SignRequest, SessionView};
use crate::path::canonical_path_chars;
use crate::session::lookup;

verus! {

/// Canonicalization is deterministic: any two signing results that meet the
/// signing contract for the same identity decision and chain carry
/// byte-identical derivation paths, however many calls apart they were
/// produced.
pub proof fn lemma_sign_path_deterministic(
    r1: Result<SignRequest, AuthError>,
    r2: Result<SignRequest, AuthError>,
    id: Result<IdentityFacts, AuthError>,
    chain: u64,
)
    requires
        request_view(r1) == sign_outcome(id, chain),
        request_view(r2) == sign_outcome(id, chain),
        r1 is Ok,
        r2 is Ok,
    ensures
        r1 matches Ok(a) ==> (r2 matches Ok(b) ==> a.path@ == b.path@ && a.payload@
            == b.payload@),
{
}

/// The canonical path depends only on the chain and the metadata's
/// contents, never on how or in what order the metadata was assembled.
pub proof fn lemma_build_order_independent(m1: Meta, m2: Meta, chain: u64)
    requires
        m1.email@ == m2.email@,
        m1.user_id@ == m2.user_id@,
    ensures
        canonical_path_chars(chain, m1.email@, m1.user_id@) == canonical_path_chars(
            chain,
            m2.email@,
            m2.user_id@,
        ),
{
}

/// A digest admits exactly one matching commitment segment: any two
/// segments that both match are element-for-element equal.
pub proof fn lemma_commitment_pins_segment(
    c1: Seq<FieldElement>,
    c2: Seq<FieldElement>,
    h: Seq<u8>,
)
    requires
        commitment_matches(c1, h),
        commitment_matches(c2, h),
    ensures
        c1 =~= c2,
{
    assert forall|i: int| 0 <= i < 4 implies c1[i] == c2[i] by {
        assert(c1[i].w0 == c2[i].w0);
        assert(c1[i].w1 == 0 && c2[i].w1 == 0);
        assert(c1[i].w2 == 0 && c2[i].w2 == 0);
        assert(c1[i].w3 == 0 && c2[i].w3 == 0);
    }
}

/// Tampering with the challenge-hash segment is never silent: a segment
/// that differs anywhere — in any element, so in any byte of the segment's
/// value — from one that matches the digest cannot itself match, and so is
/// rejected as a challenge mismatch.
pub proof fn lemma_tampered_segment_mismatches(
    c: Seq<FieldElement>,
    tampered: Seq<FieldElement>,
    h: Seq<u8>,
)
    requires
        commitment_matches(c, h),
        tampered.len() == 4,
        exists|i: int| 0 <= i < 4 && tampered[i] != c[i],
    ensures
        !commitment_matches(tampered, h),
{
    if commitment_matches(tampered, h) {
        lemma_commitment_pins_segment(c, tampered, h);
        let i = choose|i: int| 0 <= i < 4 && tampered[i] != c[i];
        assert(tampered[i] == c[i]);
    }
}

/// Base-256 positional digits are unique: with remainders below the place
/// value, equal values mean equal digit and equal remainder.
pub proof fn lemma_base256_digit(a: int, b: int, ra: int, rb: int, c: int)
    requires
        0 <= ra < c,
        0 <= rb < c,
        a * c + ra == b * c + rb,
    ensures
        a == b,
        ra == rb,
{
    assert(a == b) by (nonlinear_arith)
        requires
            0 <= ra < c,
            0 <= rb < c,
            a * c + ra == b * c + rb,
    {
    }
}

/// A commitment chunk determines its digest bytes: base-256 positional
/// representation is unique, so equal chunk values mean equal bytes.
pub proof fn lemma_u64_be_injective(h1: Seq<u8>, h2: Seq<u8>, off: int)
    requires
        0 <= off,
        off + 8 <= h1.len(),
        off + 8 <= h2.len(),
        u64_be(h1, off) == u64_be(h2, off),
    ensures
        forall|j: int| 0 <= j < 8 ==> #[trigger] h1[off + j] == h2[off + j],
{
    assert(u64_be(h1, off) == (h1[off + 0] as int) * 0x100000000000000 + (h1[off + 1] as int) * 0x1000000000000 + (h1[off + 2] as int) * 0x10000000000 + (h1[off + 3] as int) * 0x100000000 + (h1[off + 4] as int) * 0x1000000 + (h1[off + 5] as int) * 0x10000 + (h1[off + 6] as int) * 0x100 + (h1[off + 7] as int));
    assert(u64_be(h2, off) == (h2[off + 0] as int) * 0x100000000000000 + (h2[off + 1] as int) * 0x1000000000000 + (h2[off + 2] as int) * 0x10000000000 + (h2[off + 3] as int) * 0x100000000 + (h2[off + 4] as int) * 0x1000000 + (h2[off + 5] as int) * 0x10000 + (h2[off + 6] as int) * 0x100 + (h2[off + 7] as int));
    assert(0 <= ((h1[off + 1] as int) * 0x1000000000000 + (h1[off + 2] as int) * 0x10000000000 + (h1[off + 3] as int) * 0x100000000 + (h1[off + 4] as int) * 0x1000000 + (h1[off + 5] as int) * 0x10000 + (h1[off + 6] as int) * 0x100 + (h1[off + 7] as int)) < 0x100000000000000);
    assert(0 <= ((h2[off + 1] as int) * 0x1000000000000 + (h2[off + 2] as int) * 0x10000000000 + (h2[off + 3] as int) * 0x100000000 + (h2[off + 4] as int) * 0x1000000 + (h2[off + 5] as int) * 0x10000 + (h2[off + 6] as int) * 0x100 + (h2[off + 7] as int)) < 0x100000000000000);
    lemma_base256_digit(
        h1[off + 0] as int,
        h2[off + 0] as int,
        (h1[off + 1] as int) * 0x1000000000000 + (h1[off + 2] as int) * 0x10000000000 + (h1[off + 3] as int) * 0x100000000 + (h1[off + 4] as int) * 0x1000000 + (h1[off + 5] as int) * 0x10000 + (h1[off + 6] as int) * 0x100 + (h1[off + 7] as int),
        (h2[off + 1] as int) * 0x1000000000000 + (h2[off + 2] as int) * 0x10000000000 + (h2[off + 3] as int) * 0x100000000 + (h2[off + 4] as int) * 0x1000000 + (h2[off + 5] as int) * 0x10000 + (h2[off + 6] as int) * 0x100 + (h2[off + 7] as int),
        0x100000000000000,
    );
    assert(0 <= ((h1[off + 2] as int) * 0x10000000000 + (h1[off + 3] as int) * 0x100000000 + (h1[off + 4] as int) * 0x1000000 + (h1[off + 5] as int) * 0x10000 + (h1[off + 6] as int) * 0x100 + (h1[off + 7] as int)) < 0x1000000000000);
    assert(0 <= ((h2[off + 2] as int) * 0x10000000000 + (h2[off + 3] as int) * 0x100000000 + (h2[off + 4] as int) * 0x1000000 + (h2[off + 5] as int) * 0x10000 + (h2[off + 6] as int) * 0x100 + (h2[off + 7] as int)) < 0x1000000000000);
    lemma_base256_digit(
        h1[off + 1] as int,
        h2[off + 1] as int,
        (h1[off + 2] as int) * 0x10000000000 + (h1[off + 3] as int) * 0x100000000 + (h1[off + 4] as int) * 0x1000000 + (h1[off + 5] as int) * 0x10000 + (h1[off + 6] as int) * 0x100 + (h1[off + 7] as int),
        (h2[off + 2] as int) * 0x10000000000 + (h2[off + 3] as int) * 0x100000000 + (h2[off + 4] as int) * 0x1000000 + (h2[off + 5] as int) * 0x10000 + (h2[off + 6] as int) * 0x100 + (h2[off + 7] as int),
        0x1000000000000,
    );
    assert(0 <= ((h1[off + 3] as int) * 0x100000000 + (h1[off + 4] as int) * 0x1000000 + (h1[off + 5] as int) * 0x10000 + (h1[off + 6] as int) * 0x100 + (h1[off + 7] as int)) < 0x10000000000);
    assert(0 <= ((h2[off + 3] as int) * 0x100000000 + (h2[off + 4] as int) * 0x1000000 + (h2[off + 5] as int) * 0x10000 + (h2[off + 6] as int) * 0x100 + (h2[off + 7] as int)) < 0x10000000000);
    lemma_base256_digit(
        h1[off + 2] as int,
        h2[off + 2] as int,
        (h1[off + 3] as int) * 0x100000000 + (h1[off + 4] as int) * 0x1000000 + (h1[off + 5] as int) * 0x10000 + (h1[off + 6] as int) * 0x100 + (h1[off + 7] as int),
        (h2[off + 3] as int) * 0x100000000 + (h2[off + 4] as int) * 0x1000000 + (h2[off + 5] as int) * 0x10000 + (h2[off + 6] as int) * 0x100 + (h2[off + 7] as int),
        0x10000000000,
    );
    assert(0 <= ((h1[off + 4] as int) * 0x1000000 + (h1[off + 5] as int) * 0x10000 + (h1[off + 6] as int) * 0x100 + (h1[off + 7] as int)) < 0x100000000);
    assert(0 <= ((h2[off + 4] as int) * 0x1000000 + (h2[off + 5] as int) * 0x10000 + (h2[off + 6] as int) * 0x100 + (h2[off + 7] as int)) < 0x100000000);
    lemma_base256_digit(
        h1[off + 3] as int,
        h2[off + 3] as int,
        (h1[off + 4] as int) * 0x1000000 + (h1[off + 5] as int) * 0x10000 + (h1[off + 6] as int) * 0x100 + (h1[off + 7] as int),
        (h2[off + 4] as int) * 0x1000000 + (h2[off + 5] as int) * 0x10000 + (h2[off + 6] as int) * 0x100 + (h2[off + 7] as int),
        0x100000000,
    );
    assert(0 <= ((h1[off + 5] as int) * 0x10000 + (h1[off + 6] as int) * 0x100 + (h1[off + 7] as int)) < 0x1000000);
    assert(0 <= ((h2[off + 5] as int) * 0x10000 + (h2[off + 6] as int) * 0x100 + (h2[off + 7] as int)) < 0x1000000);
    lemma_base256_digit(
        h1[off + 4] as int,
        h2[off + 4] as int,
        (h1[off + 5] as int) * 0x10000 + (h1[off + 6] as int) * 0x100 + (h1[off + 7] as int),
        (h2[off + 5] as int) * 0x10000 + (h2[off + 6] as int) * 0x100 + (h2[off + 7] as int),
        0x1000000,
    );
    assert(0 <= ((h1[off + 6] as int) * 0x100 + (h1[off + 7] as int)) < 0x10000);
    assert(0 <= ((h2[off + 6] as int) * 0x100 + (h2[off + 7] as int)) < 0x10000);
    lemma_base256_digit(
        h1[off + 5] as int,
        h2[off + 5] as int,
        (h1[off + 6] as int) * 0x100 + (h1[off + 7] as int),
        (h2[off + 6] as int) * 0x100 + (h2[off + 7] as int),
        0x10000,
    );
    assert(0 <= ((h1[off + 7] as int)) < 0x100);
    assert(0 <= ((h2[off + 7] as int)) < 0x100);
    lemma_base256_digit(
        h1[off + 6] as int,
        h2[off + 6] as int,
        (h1[off + 7] as int),
        (h2[off + 7] as int),
        0x100,
    );
    assert(h1[off + 7] == h2[off + 7]);
}

/// A commitment segment pins the whole digest: a segment cannot match two
/// different 32-byte digests, so hashing a different challenge — or
/// tampering with any single byte of the digest the segment was built from
/// — always surfaces as a challenge mismatch, never a silent pass.
pub proof fn lemma_commitment_pins_digest(c: Seq<FieldElement>, h1: Seq<u8>, h2: Seq<u8>)
    requires
        commitment_matches(c, h1),
        commitment_matches(c, h2),
        h1.len() == 32,
        h2.len() == 32,
    ensures
        h1 =~= h2,
{
    assert forall|b: int| 0 <= b < 32 implies h1[b] == h2[b] by {
        let i = b / 8;
        let j = b % 8;
        assert(element_commits(c[i], h1, i));
        assert(element_commits(c[i], h2, i));
        lemma_u64_be_injective(h1, h2, 8 * i);
        assert(h1[8 * i + j] == h2[8 * i + j]);
    }
}

/// A session whose expiry is not strictly in the future is rejected as
/// expired even when it exists and its hostname matches exactly.
pub proof fn lemma_expired_session_rejected(
    records: Seq<LastLoginSession>,
    session_id: Seq<char>,
    hostname: Seq<char>,
    now: u64,
    s: SessionView,
)
    requires
        lookup(records, session_id) == Some(s),
        s.hostname == hostname,
        s.expires_at <= now,
    ensures
        session_check(records, session_id, hostname, now) == Err::<SessionView, AuthError>(
            AuthError::SessionExpired,
        ),
{
}

/// A stored, unexpired session is admitted whenever it is presented with
/// the hostname it was bound to, at any time strictly before its expiry.
pub proof fn lemma_live_session_admitted(
    records: Seq<LastLoginSession>,
    session_id: Seq<char>,
    hostname: Seq<char>,
    now: u64,
    s: SessionView,
)
    requires
        lookup(records, session_id) == Some(s),
        s.hostname == hostname,
        s.expires_at > now,
    ensures
        session_check(records, session_id, hostname, now) == Ok::<SessionView, AuthError>(s),
{
}

} // verus!
