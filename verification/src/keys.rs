//! The signing key of the service.
//!
//! Tokens are authenticated with HMAC-SHA-256. The key is derived from the
//! configured secret once, at startup; a secret that gives no key stops the
//! service before it serves anything. The key keeps the bytes it was derived
//! from, so that whoever signs or checks a token can key the MAC with them.

use hmac::digest::InvalidLength;
use hmac::{Hmac, Mac};
use sha2::Sha256;
use vstd::prelude::*;
use vstd::string::StrSliceExecFns;
use vstd::string::StringSliceAdditionalSpecFns;

verus! {

/// `digest::InvalidLength`, the error with which a keyed algorithm turns down
/// a key of a length it cannot take. It carries no information.
#[verifier::external_type_specification]
#[verifier::external_body]
pub struct ExInvalidLength(InvalidLength);

/// `Hmac::<Sha256>::new_from_slice`, asked whether it takes `secret` as a key.
/// HMAC takes a key of any length: a short one is padded with zeros, a long
/// one is hashed first. So the call never fails, which is all that is claimed
/// here; the keyed state it builds is dropped.
#[verifier::external_body]
pub(crate) fn hmac_sha256_accepts(secret: &[u8]) -> (outcome: Result<(), InvalidLength>)
    ensures
        outcome is Ok,
{
    match Hmac::<Sha256>::new_from_slice(secret) {
        Ok(_) => Ok(()),
        Err(refused) => Err(refused),
    }
}

/// A key for HMAC-SHA-256: the bytes of a secret that is not empty.
pub struct SigningKey {
    secret: Vec<u8>,
}

impl View for SigningKey {
    type V = Seq<u8>;

    closed spec fn view(&self) -> Seq<u8> {
        self.secret@
    }
}

impl SigningKey {
    #[verifier::type_invariant]
    spec fn holds_a_secret(self) -> bool {
        self.secret@.len() > 0
    }

    /// The key bytes that a secret gives: its UTF-8 encoding.
    pub open spec fn bytes_of(secret: Seq<char>) -> Seq<u8> {
        vstd::utf8::encode_utf8(secret)
    }

    /// Derives the key from the secret. There is a key for every secret but
    /// the empty one.
    pub fn derive(secret: &str) -> (key: Option<SigningKey>)
        ensures
            key is Some <==> secret@.len() > 0,
            key matches Some(k) ==> k@ == Self::bytes_of(secret@) && k@.len() > 0,
    {
        if secret.unicode_len() == 0 {
            return None;
        }
        let bytes = secret.as_bytes_vec();
        assert(bytes@.len() > 0) by {
            assert(bytes@ == vstd::utf8::encode_utf8(secret@));
            assert(vstd::utf8::encode_scalar(secret@[0] as u32).len() > 0);
        }
        match hmac_sha256_accepts(bytes.as_slice()) {
            Ok(()) => Some(SigningKey { secret: bytes }),
            Err(_) => None,
        }
    }

    /// The bytes to key the MAC with.
    pub fn as_bytes(&self) -> (bytes: &[u8])
        ensures
            bytes@ == self@,
            bytes@.len() > 0,
    {
        proof {
            use_type_invariant(self);
        }
        self.secret.as_slice()
    }
}

} // verus!
