//! The key pair that signs and verifies the tokens.

use vstd::prelude::*;
use crate::services::jwt::{decoding_key_from_ed_pem, decoding_key_bytes, ed_private_pem_reads, ed_public_pem_holds, encoding_key_from_ed_pem, long_enough, raw_key_bytes};
use crate::text::{base64_decode, base64_of};

verus! {

/// An Ed25519 key pair, made once and only read afterwards. The public key
/// holds at least the 32 bytes that verifying takes.
pub struct Keys {
    encoding: jsonwebtoken::EncodingKey,
    decoding: jsonwebtoken::DecodingKey,
}

/// Whether two PEM texts are a key pair: the first reads as a private and
/// the second as a public Ed25519 key that is long enough.
pub open spec fn pem_pair_reads(private: Seq<u8>, public: Seq<u8>) -> bool {
    ed_private_pem_reads(private) && long_enough(ed_public_pem_holds(public))
}

/// Whether two texts are a key pair as configuration holds it: each is base64
/// of a PEM text, and the two PEM texts are a key pair.
pub open spec fn key_pair_reads(private_b64: Seq<char>, public_b64: Seq<char>) -> bool {
    match (base64_of(private_b64), base64_of(public_b64)) {
        (Some(private), Some(public)) => pem_pair_reads(private, public),
        _ => false,
    }
}

/// Whether a public key was read and is long enough to verify with.
pub open spec fn is_long_enough(
    decoding: Result<jsonwebtoken::DecodingKey, jsonwebtoken::errors::Error>,
) -> bool {
    match decoding {
        Ok(public) => long_enough(raw_key_bytes(public)),
        Err(_) => false,
    }
}

impl Keys {
    /// The public key is long enough to verify with.
    #[verifier::type_invariant]
    closed spec fn whole(self) -> bool {
        long_enough(raw_key_bytes(self.decoding))
    }

    /// The private key.
    pub closed spec fn encoding_key(self) -> jsonwebtoken::EncodingKey {
        self.encoding
    }

    /// The public key.
    pub closed spec fn decoding_key(self) -> jsonwebtoken::DecodingKey {
        self.decoding
    }

    /// The private key.
    pub fn encoding(&self) -> (key: &jsonwebtoken::EncodingKey)
        ensures
            *key == self.encoding_key(),
    {
        &self.encoding
    }

    /// The public key. It is long enough to verify with.
    pub fn decoding(&self) -> (key: &jsonwebtoken::DecodingKey)
        ensures
            *key == self.decoding_key(),
            long_enough(raw_key_bytes(*key)),
    {
        proof {
            use_type_invariant(self);
        }
        &self.decoding
    }

    /// The pair of two keys, if both were read and the public key is long
    /// enough to verify with.
    pub fn from_parts(
        encoding: Result<jsonwebtoken::EncodingKey, jsonwebtoken::errors::Error>,
        decoding: Result<jsonwebtoken::DecodingKey, jsonwebtoken::errors::Error>,
    ) -> (keys: Option<Keys>)
        ensures
            keys is Some <==> encoding is Ok && is_long_enough(decoding),
            keys matches Some(k) ==> encoding == Ok::<_, jsonwebtoken::errors::Error>(
                k.encoding_key(),
            ) && decoding == Ok::<_, jsonwebtoken::errors::Error>(k.decoding_key()),
    {
        match (encoding, decoding) {
            (Ok(encoding), Ok(decoding)) => {
                match decoding_key_bytes(&decoding) {
                    Some(bytes) => if bytes.len() >= 32 {
                        Some(Keys { encoding, decoding })
                    } else {
                        None
                    },
                    None => None,
                }
            },
            _ => None,
        }
    }

    /// The key pair read from a private and a public key in PEM form; none
    /// if either is not an Ed25519 key, or if the public key is too short to
    /// be one.
    pub fn new(private: Vec<u8>, public: Vec<u8>) -> (keys: Option<Keys>)
        ensures
            keys is Some <==> pem_pair_reads(private@, public@),
    {
        let encoding = encoding_key_from_ed_pem(private.as_slice());
        let decoding = decoding_key_from_ed_pem(public.as_slice());
        Keys::from_parts(encoding, decoding)
    }

    /// The key pair read from two PEM texts that are given in base64, as
    /// configuration holds them; none if either cannot be read.
    pub fn from_base64(private_b64: &str, public_b64: &str) -> (keys: Option<Keys>)
        ensures
            keys is Some <==> key_pair_reads(private_b64@, public_b64@),
    {
        match (base64_decode(private_b64), base64_decode(public_b64)) {
            (Some(private), Some(public)) => Keys::new(private, public),
            _ => None,
        }
    }
}

} // verus!
