use vstd::prelude::*;
use crate::numeric::hex_digit;

verus! {

/// The SHA-256 digest of the UTF-8 encoding of a character sequence. The
/// algorithm is an external collaborator; only its determinism and its
/// 32-byte output width are relied on, never its internal structure.
pub uninterp spec fn sha256_of(s: Seq<char>) -> Seq<u8>;

/// The lowercase hexadecimal rendering of a byte sequence: two digits per
/// byte, high nibble first.
pub open spec fn hex_of(b: Seq<u8>) -> Seq<char>
    decreases b.len(),
{
    if b.len() == 0 {
        Seq::empty()
    } else {
        hex_of(b.drop_last()) + seq![
            hex_digit(b.last() as int / 16),
            hex_digit(b.last() as int % 16),
        ]
    }
}

/// Relies on sha2's SHA-256: the digest is a function of the input bytes
/// alone and is always 32 bytes wide.
#[verifier::external_body]
pub fn sha256_str(s: &str) -> (r: Vec<u8>)
    ensures
        r@ == sha256_of(s@),
        r@.len() == 32,
{
    <sha2::Sha256 as sha2::Digest>::digest(s.as_bytes()).to_vec()
}

/// Relies on hex::encode: each byte becomes its two lowercase hexadecimal
/// digits, high nibble first, in input order.
#[verifier::external_body]
pub fn hex_lower(b: &Vec<u8>) -> (r: String)
    ensures
        r@ == hex_of(b@),
{
    hex::encode(b)
}

/// Relies on std's `FromIterator<char> for String`: collecting characters
/// yields the string of exactly those characters.
#[verifier::external_body]
pub fn chars_to_string(v: &Vec<char>) -> (r: String)
    ensures
        r@ == v@,
{
    v.iter().collect()
}

} // verus!
