//! What the message logic asks of a cryptographic backend.
//!
//! A backend that is not verified leaves the specification functions open, and has to
//! keep the contracts all the same.
use vstd::prelude::*;

use crate::error::Error;

verus! {

/// The length of an AEAD key.
pub const AEAD_KEY_LEN: usize = 16;

/// The length of an AEAD nonce.
pub const AEAD_NONCE_LEN: usize = 13;

/// The length of the tag behind an AEAD ciphertext.
pub const AEAD_TAG_LEN: usize = 16;

/// The length of an HMAC-SHA-256 digest.
pub const HMAC_LEN: usize = 32;

/// Authenticated decryption.
pub trait Aead {
    /// The plaintext of a ciphertext with its tag, where the tag is right.
    closed spec fn opened(key: Seq<u8>, nonce: Seq<u8>, ad: Seq<u8>, sealed: Seq<u8>) -> Option<
        Seq<u8>,
    > {
        arbitrary()
    }

    /// Whether decrypting can fail with this error.
    closed spec fn refuses(
        key: Seq<u8>,
        nonce: Seq<u8>,
        ad: Seq<u8>,
        sealed: Seq<u8>,
        error: Error,
    ) -> bool {
        arbitrary()
    }

    /// Decrypts and authenticates `data`, a ciphertext with its tag, in place. Returns
    /// the length of the plaintext, which then stands in front.
    fn decrypt_in_place(
        &mut self,
        key: &[u8; AEAD_KEY_LEN],
        nonce: &[u8; AEAD_NONCE_LEN],
        ad: &[u8],
        data: &mut [u8],
    ) -> (r: Result<usize, Error>)
        requires
            old(data)@.len() >= AEAD_TAG_LEN,
        ensures
            final(data)@.len() == old(data)@.len(),
            r matches Ok(len) ==> len + AEAD_TAG_LEN == old(data)@.len() && Self::opened(
                key@,
                nonce@,
                ad@,
                old(data)@,
            ) == Some(final(data)@.take(len as int)),
            r matches Err(error) ==> Self::refuses(key@, nonce@, ad@, old(data)@, error),
    ;
}

/// A keyed digest that takes its input in pieces.
pub trait Digest {
    /// The digest of some input under a key.
    closed spec fn digest(key: Seq<u8>, input: Seq<u8>) -> Seq<u8> {
        arbitrary()
    }

    /// Whether making the digest of some input under a key can fail with this error.
    closed spec fn fails_with(key: Seq<u8>, input: Seq<u8>, error: Error) -> bool {
        arbitrary()
    }

    /// The key.
    closed spec fn key(&self) -> Seq<u8> {
        arbitrary()
    }

    /// The input taken so far.
    closed spec fn input(&self) -> Seq<u8> {
        arbitrary()
    }

    /// Takes more input.
    fn update(&mut self, data: &[u8]) -> (r: Result<(), Error>)
        ensures
            final(self).key() == old(self).key(),
            r is Ok ==> final(self).input() == old(self).input() + data@,
            r matches Err(error) ==> Self::fails_with(
                old(self).key(),
                old(self).input() + data@,
                error,
            ),
    ;

    /// The digest of the input taken so far.
    fn finish(self, digest: &mut [u8; HMAC_LEN]) -> (r: Result<(), Error>) where Self: Sized
        ensures
            r is Ok ==> final(digest)@ == Self::digest(self.key(), self.input()),
            r matches Err(error) ==> Self::fails_with(self.key(), self.input(), error),
    ;
}

/// A cryptographic backend.
pub trait Crypto {
    /// AES-CCM with a tag of 16 bytes.
    type Aead: Aead;

    /// HMAC-SHA-256.
    type Hmac: Digest;

    /// Whether offering authenticated decryption can fail with this error.
    closed spec fn aead_fails_with(&self, error: Error) -> bool {
        arbitrary()
    }

    /// Whether offering a digest under this key can fail with this error.
    closed spec fn hmac_fails_with(&self, key: Seq<u8>, error: Error) -> bool {
        arbitrary()
    }

    /// Authenticated decryption, where the backend can offer it now.
    fn aead(&self) -> (r: Result<Self::Aead, Error>)
        ensures
            r matches Err(error) ==> self.aead_fails_with(error),
    ;

    /// A digest under `key` that has taken no input yet, where the backend can offer it
    /// now.
    fn hmac(&self, key: &[u8; AEAD_KEY_LEN]) -> (r: Result<Self::Hmac, Error>)
        ensures
            r matches Ok(hmac) ==> hmac.key() == key@ && hmac.input() == Seq::<u8>::empty(),
            r matches Err(error) ==> self.hmac_fails_with(key@, error),
    ;
}

} // verus!
