//! SHA-256 verification of downloaded installers.

use vstd::prelude::*;
use sha2::Digest;
use crate::text::{bytes_hex, eq_ignore_ascii_case_spec, eq_ignore_ascii_case, hex_of_bytes};

verus! {

/// The SHA-256 digest of a byte sequence.
pub uninterp spec fn sha256_spec(data: Seq<u8>) -> Seq<u8>;

/// `sha2::Sha256::digest`: the 32-byte SHA-256 digest of `data`.
/// Claimed: the result is the digest named `sha256_spec` of the input and has 32 bytes.
#[verifier::external_body]
fn sha256_digest(data: &[u8]) -> (r: Vec<u8>)
    ensures
        r@ == sha256_spec(data@),
        r@.len() == 32,
{
    sha2::Sha256::digest(data).to_vec()
}

/// Lowercase hexadecimal SHA-256 digest of `data` (64 characters).
pub fn sha256_hex(data: &[u8]) -> (r: String)
    ensures
        r@ == bytes_hex(sha256_spec(data@)),
        r@.len() == 64,
{
    let d = sha256_digest(data);
    hex_of_bytes(d.as_slice())
}

/// Whether the installer bytes `data` have the SHA-256 checksum `expected_hex`,
/// compared as hexadecimal text without regard to ASCII letter case.
pub fn checksum_matches(data: &[u8], expected_hex: &str) -> (r: bool)
    ensures
        r == eq_ignore_ascii_case_spec(bytes_hex(sha256_spec(data@)), expected_hex@),
{
    let computed = sha256_hex(data);
    eq_ignore_ascii_case(computed.as_str(), expected_hex)
}


/// A download passes verification against its own digest, and the letter
/// case of the expected checksum never matters: two expected texts that
/// differ only in ASCII case are accepted or refused together.
pub proof fn lemma_checksum_case_blind(data: Seq<u8>, e1: Seq<char>, e2: Seq<char>)
    requires
        eq_ignore_ascii_case_spec(e1, e2),
    ensures
        eq_ignore_ascii_case_spec(bytes_hex(sha256_spec(data)), bytes_hex(sha256_spec(data))),
        eq_ignore_ascii_case_spec(bytes_hex(sha256_spec(data)), e1)
            == eq_ignore_ascii_case_spec(bytes_hex(sha256_spec(data)), e2),
{
}

} // verus!
