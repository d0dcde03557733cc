//! Digests, their hexadecimal form, and random bytes from the operating
//! system.

use vstd::prelude::*;
use vstd::string::*;
use vstd::utf8::encode_utf8;
use rand::TryRngCore;
use sha2::Digest;

verus! {

/// `rand::rand_core::OsError`: why the operating system gave no random bytes.
/// Carried through, never read.
#[verifier::external_type_specification]
#[verifier::external_body]
pub struct ExOsError(rand::rand_core::OsError);

/// The SHA-256 digest of a sequence of bytes.
pub uninterp spec fn sha256_of(data: Seq<u8>) -> Seq<u8>;

/// The lower-case hexadecimal digit for a number below 16.
pub open spec fn hex_digit(n: int) -> char {
    if n < 10 {
        ((48 + n) as u8) as char
    } else {
        ((87 + n) as u8) as char
    }
}

/// A sequence of bytes written in lower-case hexadecimal, two digits a byte,
/// the high half first.
pub open spec fn hex_lower(bytes: Seq<u8>) -> Seq<char> {
    Seq::new(
        2 * bytes.len(),
        |i: int|
            if i % 2 == 0 {
                hex_digit(bytes[i / 2] as int / 16)
            } else {
                hex_digit(bytes[i / 2] as int % 16)
            },
    )
}

/// The digest under which a verification token is kept: the SHA-256 digest
/// of the token's text, in hexadecimal.
pub open spec fn token_digest(token: Seq<char>) -> Seq<char> {
    hex_lower(sha256_of(encode_utf8(token)))
}

/// `sha2::Sha256::digest`. The contract names the digest and gives its
/// length, 32 bytes.
#[verifier::external_body]
pub(crate) fn sha256(data: &[u8]) -> (digest: Vec<u8>)
    ensures
        digest@ == sha256_of(data@),
        digest@.len() == 32,
{
    sha2::Sha256::digest(data).to_vec()
}

/// `hex::encode`: each byte becomes two lower-case hexadecimal digits, the
/// high half first.
#[verifier::external_body]
pub(crate) fn hex_encode(bytes: &[u8]) -> (text: String)
    ensures
        text@ == hex_lower(bytes@),
{
    hex::encode(bytes)
}

/// `try_fill_bytes` of `rand::rngs::OsRng` on 32 bytes. Nothing is said of
/// the bytes: they are random.
#[verifier::external_body]
pub(crate) fn os_random_32() -> (r: Result<[u8; 32], rand::rand_core::OsError>)
{
    let mut bytes = [0u8; 32];
    rand::rngs::OsRng.try_fill_bytes(&mut bytes).map(|_| bytes)
}

/// The digest under which the verification token `raw_token` is kept.
pub fn hash_verification_token(raw_token: &str) -> (hash: String)
    ensures
        hash@ == token_digest(raw_token@),
        hash@.len() == 64,
{
    let digest = sha256(raw_token.as_bytes());
    hex_encode(digest.as_slice())
}

} // verus!
