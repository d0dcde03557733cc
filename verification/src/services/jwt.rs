//! Signing and decoding of tokens with an Ed25519 key pair.

use vstd::prelude::*;
use crate::json::{JsonObject, json_numbers, json_texts};

verus! {

/// `jsonwebtoken::EncodingKey`: the private key. Carried through, never read.
#[verifier::external_type_specification]
#[verifier::external_body]
pub struct ExEncodingKey(jsonwebtoken::EncodingKey);

/// `jsonwebtoken::DecodingKey`: the public key. Only its bytes are read.
#[verifier::external_type_specification]
#[verifier::external_body]
pub struct ExDecodingKey(jsonwebtoken::DecodingKey);

/// `jsonwebtoken::errors::Error`: why a key was not read, a token not signed
/// or not accepted. Carried through, never read.
#[verifier::external_type_specification]
#[verifier::external_body]
pub struct ExJwtError(jsonwebtoken::errors::Error);

/// The text members and the number members of a JSON object.
pub type Members = (Map<Seq<char>, Seq<char>>, Map<Seq<char>, u64>);

/// The members of an object.
pub open spec fn members_of(object: JsonObject) -> Members {
    (json_texts(object), json_numbers(object))
}

/// Whether the bytes read as a private Ed25519 key in PEM form.
pub uninterp spec fn ed_private_pem_reads(pem: Seq<u8>) -> bool;

/// The bytes of the public Ed25519 key that the bytes of a PEM text read
/// as; none where they read as no such key.
pub uninterp spec fn ed_public_pem_holds(pem: Seq<u8>) -> Option<Seq<u8>>;

/// The bytes of a decoding key, where it holds its key as bytes.
pub uninterp spec fn raw_key_bytes(key: jsonwebtoken::DecodingKey) -> Option<Seq<u8>>;

/// Whether the key signs: whether it is a private Ed25519 key that the
/// signer can use.
pub uninterp spec fn ed_key_signs(key: jsonwebtoken::EncodingKey) -> bool;

/// The members of the claims that a token carries in its payload.
pub uninterp spec fn token_claims(token: Seq<char>) -> Members;

/// Whether a token is accepted under the key for the audience and the
/// issuer, its expiry left aside: it has the form of a token, names EdDSA,
/// carries a signature that the key verifies, has an expiry, and names no
/// other audience and no other issuer.
pub uninterp spec fn ed_token_verifies(
    token: Seq<char>,
    key: jsonwebtoken::DecodingKey,
    audience: Seq<char>,
    issuer: Seq<char>,
) -> bool;

/// A public key that is long enough to be one: the verifier takes the first
/// 32 bytes of it.
pub open spec fn long_enough(bytes: Option<Seq<u8>>) -> bool {
    bytes matches Some(b) && b.len() >= 32
}

/// Whether the text members answer a validation that accepts one audience
/// and one issuer: an `aud` or `iss` that is a text is the accepted one.
pub open spec fn addressed_to(
    texts: Map<Seq<char>, Seq<char>>,
    audience: Seq<char>,
    issuer: Seq<char>,
) -> bool {
    &&& texts.contains_key("aud"@) ==> texts["aud"@] == audience
    &&& texts.contains_key("iss"@) ==> texts["iss"@] == issuer
}

/// `jsonwebtoken::EncodingKey::from_ed_pem`. Whether a key comes back
/// depends on the bytes alone, and the contract gives that a name. Nothing
/// is said of the key.
#[verifier::external_body]
pub(crate) fn encoding_key_from_ed_pem(pem: &[u8]) -> (r: Result<
    jsonwebtoken::EncodingKey,
    jsonwebtoken::errors::Error,
>)
    ensures
        r is Ok <==> ed_private_pem_reads(pem@),
{
    jsonwebtoken::EncodingKey::from_ed_pem(pem)
}

/// `jsonwebtoken::DecodingKey::from_ed_pem`. Whether a key comes back, and
/// which bytes it holds, depends on the bytes of the PEM text alone, and the
/// contract gives that a name. A key that comes back holds its key as
/// bytes.
#[verifier::external_body]
pub(crate) fn decoding_key_from_ed_pem(pem: &[u8]) -> (r: Result<
    jsonwebtoken::DecodingKey,
    jsonwebtoken::errors::Error,
>)
    ensures
        r is Ok <==> ed_public_pem_holds(pem@) is Some,
        r matches Ok(key) ==> raw_key_bytes(key) == ed_public_pem_holds(pem@),
{
    jsonwebtoken::DecodingKey::from_ed_pem(pem)
}

/// `jsonwebtoken::DecodingKey::kind`: the bytes of a key that is held as
/// bytes, none for a key that is held as modulus and exponent.
#[verifier::external_body]
pub(crate) fn decoding_key_bytes(key: &jsonwebtoken::DecodingKey) -> (r: Option<Vec<u8>>)
    ensures
        match r {
            Some(bytes) => raw_key_bytes(*key) == Some(bytes@),
            None => raw_key_bytes(*key) is None,
        },
{
    match key.kind() {
        jsonwebtoken::DecodingKeyKind::SecretOrDer(bytes) => Some(bytes.clone()),
        jsonwebtoken::DecodingKeyKind::RsaModulusExponent { .. } => None,
    }
}

/// `jsonwebtoken::encode` with an EdDSA header. Whether a token comes back
/// depends on the key alone. A token that comes back is three parts joined
/// by two dots, so it is not empty, and its payload is the claims written as
/// JSON, so it carries the members that the claims have.
#[verifier::external_body]
pub(crate) fn sign_eddsa(claims: &JsonObject, key: &jsonwebtoken::EncodingKey) -> (r: Result<
    String,
    jsonwebtoken::errors::Error,
>)
    ensures
        r is Ok <==> ed_key_signs(*key),
        r matches Ok(token) ==> token@.len() > 0 && token_claims(token@) == members_of(*claims),
{
    jsonwebtoken::encode(&jsonwebtoken::Header::new(jsonwebtoken::Algorithm::EdDSA), claims, key)
}

/// `jsonwebtoken::decode` under a validation for EdDSA that accepts the one
/// audience and the one issuer and leaves the expiry aside, so that the
/// clock is not read. The key must hold at least the 32 bytes that the
/// verifier takes. Whether claims come back depends on the arguments alone;
/// claims that come back are the ones that the token carries, and passed the
/// validation of audience and issuer.
#[verifier::external_body]
pub(crate) fn decode_eddsa(
    token: &str,
    key: &jsonwebtoken::DecodingKey,
    audience: &str,
    issuer: &str,
) -> (r: Result<JsonObject, jsonwebtoken::errors::Error>)
    requires
        long_enough(raw_key_bytes(*key)),
    ensures
        r is Ok <==> ed_token_verifies(token@, *key, audience@, issuer@),
        r matches Ok(claims) ==> members_of(claims) == token_claims(token@) && addressed_to(
            json_texts(claims),
            audience@,
            issuer@,
        ),
{
    let mut validation = jsonwebtoken::Validation::new(jsonwebtoken::Algorithm::EdDSA);
    validation.set_audience(&[audience]);
    validation.set_issuer(&[issuer]);
    validation.validate_exp = false;
    jsonwebtoken::decode::<JsonObject>(token, key, &validation).map(|data| data.claims)
}

/// `bson::uuid::Uuid::new` written out: a random identifier in the usual
/// form of 36 characters.
#[verifier::external_body]
pub(crate) fn new_jti() -> (jti: String)
    ensures
        jti@.len() == 36,
{
    bson::uuid::Uuid::new().to_string()
}

} // verus!
