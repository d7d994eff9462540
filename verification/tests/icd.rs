//! Check-ins of intermittently connected devices, with a real backend.
use aes::Aes128;
use ccm::aead::generic_array::GenericArray;
use ccm::aead::AeadInPlace;
use ccm::consts::{U13, U16};
use ccm::{Ccm, KeyInit};
use hmac::{Hmac, Mac};
use sha2::Sha256;

use matter_services::crypto::{
    Aead, Crypto, Digest, AEAD_KEY_LEN, AEAD_NONCE_LEN, AEAD_TAG_LEN, HMAC_LEN,
};
use matter_services::error::{Error, ErrorCode};
use matter_services::icd::{
    authenticate_check_in, decode_icd_check_in, validate_icd_check_in_counter, IcdCheckInCounter,
    IcdCheckInData,
};

type AesCcm = Ccm<Aes128, U16, U13>;

struct Backend;

struct BackendAead;

struct BackendHmac(Hmac<Sha256>);

impl BackendAead {
    fn encrypt_in_place(
        &mut self,
        key: &[u8; AEAD_KEY_LEN],
        nonce: &[u8; AEAD_NONCE_LEN],
        data: &mut [u8],
        len: usize,
    ) {
        let cipher = AesCcm::new(GenericArray::from_slice(key));
        let (plaintext, tag) = data.split_at_mut(len);
        let made = cipher
            .encrypt_in_place_detached(GenericArray::from_slice(nonce), &[], plaintext)
            .unwrap();
        tag.copy_from_slice(&made);
    }
}

impl Aead for BackendAead {
    fn decrypt_in_place(
        &mut self,
        key: &[u8; AEAD_KEY_LEN],
        nonce: &[u8; AEAD_NONCE_LEN],
        ad: &[u8],
        data: &mut [u8],
    ) -> Result<usize, Error> {
        let len = data.len() - AEAD_TAG_LEN;
        let cipher = AesCcm::new(GenericArray::from_slice(key));
        let (ciphertext, tag) = data.split_at_mut(len);
        cipher
            .decrypt_in_place_detached(
                GenericArray::from_slice(nonce),
                ad,
                ciphertext,
                GenericArray::from_slice(tag),
            )
            .map_err(|_| Error::new(ErrorCode::Crypto))?;
        Ok(len)
    }
}

impl Digest for BackendHmac {
    fn update(&mut self, data: &[u8]) -> Result<(), Error> {
        self.0.update(data);
        Ok(())
    }

    fn finish(self, digest: &mut [u8; HMAC_LEN]) -> Result<(), Error> {
        digest.copy_from_slice(&self.0.finalize().into_bytes());
        Ok(())
    }
}

impl Crypto for Backend {
    type Aead = BackendAead;
    type Hmac = BackendHmac;

    fn aead(&self) -> Result<BackendAead, Error> {
        Ok(BackendAead)
    }

    fn hmac(&self, key: &[u8; AEAD_KEY_LEN]) -> Result<BackendHmac, Error> {
        Ok(BackendHmac(<Hmac<Sha256> as Mac>::new_from_slice(key).unwrap()))
    }
}

const KEY: [u8; 16] = [0x42; 16];

fn nonce_for(counter: u32) -> [u8; 13] {
    let mut hmac = Backend.hmac(&KEY).unwrap();
    Digest::update(&mut hmac, &counter.to_le_bytes()).unwrap();
    let mut digest = [0; 32];
    hmac.finish(&mut digest).unwrap();
    let mut nonce = [0; 13];
    nonce.copy_from_slice(&digest[..13]);
    nonce
}

fn sealed(nonce: [u8; 13], plaintext: &[u8]) -> Vec<u8> {
    let mut encrypted = plaintext.to_vec();
    encrypted.extend_from_slice(&[0; 16]);
    BackendAead.encrypt_in_place(&KEY, &nonce, &mut encrypted, plaintext.len());
    let mut payload = nonce.to_vec();
    payload.extend_from_slice(&encrypted);
    payload
}

fn check_in(counter: u32, threshold: u16, more: &[u8]) -> Vec<u8> {
    let mut plaintext = counter.to_le_bytes().to_vec();
    plaintext.extend_from_slice(&threshold.to_le_bytes());
    plaintext.extend_from_slice(more);
    sealed(nonce_for(counter), &plaintext)
}

#[test]
fn check_in_decoder_authenticates_nonce_and_decrypts_counter_and_threshold() {
    let crypto = Backend;
    let key = [0x42; 16];
    let counter = 0x1234_5678_u32;
    let threshold = 900_u16;
    let counter_bytes = counter.to_le_bytes();

    let mut hmac = crypto.hmac(&key).unwrap();
    Digest::update(&mut hmac, &counter_bytes).unwrap();
    let mut digest = [0; 32];
    hmac.finish(&mut digest).unwrap();
    let mut nonce = [0; 13];
    nonce.copy_from_slice(&digest[..13]);

    let mut encrypted = [0; 22];
    encrypted[..4].copy_from_slice(&counter_bytes);
    encrypted[4..6].copy_from_slice(&threshold.to_le_bytes());
    let mut aead = crypto.aead().unwrap();
    aead.encrypt_in_place(&key, &nonce, &mut encrypted, 6);

    let mut payload = [0; 35];
    payload[..13].copy_from_slice(&nonce);
    payload[13..].copy_from_slice(&encrypted);

    let check_in = decode_icd_check_in(&crypto, &key, &mut payload).unwrap();

    assert_eq!(check_in.counter, counter);
    assert_eq!(check_in.active_mode_threshold, threshold);
}

#[test]
fn check_in_counter_rejects_replay_and_marks_counter_refresh() {
    assert_eq!(
        validate_icd_check_in_counter(100, 4, 104),
        None,
        "the last accepted offset is replayed"
    );
    assert_eq!(
        validate_icd_check_in_counter(100, 4, 105),
        Some(IcdCheckInCounter { offset: 5, refresh_needed: false })
    );
    assert_eq!(
        validate_icd_check_in_counter(0, 0, 0x8000_0000),
        Some(IcdCheckInCounter { offset: 0x8000_0000, refresh_needed: true })
    );
}

#[test]
fn the_plaintext_stands_behind_the_nonce() {
    let mut payload = check_in(7, 300, b"application data");
    let nonce = payload[..13].to_vec();
    let decoded = decode_icd_check_in(&Backend, &KEY, &mut payload).unwrap();
    assert_eq!(decoded, IcdCheckInData { counter: 7, active_mode_threshold: 300 });
    assert_eq!(payload[..13], nonce);
    assert_eq!(payload[13..17], 7u32.to_le_bytes());
    assert_eq!(payload[17..19], 300u16.to_le_bytes());
    assert_eq!(&payload[19..35], b"application data");
}

#[test]
fn a_short_payload_is_left_alone() {
    let whole = check_in(7, 300, b"");
    assert_eq!(whole.len(), 35);
    for len in 0..35 {
        let mut payload = whole[..len].to_vec();
        let error = decode_icd_check_in(&Backend, &KEY, &mut payload).unwrap_err();
        assert_eq!(error.code(), ErrorCode::Invalid);
        assert_eq!(payload, whole[..len]);
    }
}

#[test]
fn a_changed_payload_is_refused() {
    let whole = check_in(7, 300, b"");
    for position in 0..whole.len() {
        let mut payload = whole.clone();
        payload[position] ^= 1;
        let error = decode_icd_check_in(&Backend, &KEY, &mut payload).unwrap_err();
        assert_eq!(error.code(), ErrorCode::Crypto);
    }
    let mut payload = whole;
    let error = decode_icd_check_in(&Backend, &[0x43; 16], &mut payload).unwrap_err();
    assert_eq!(error.code(), ErrorCode::Crypto);
}

#[test]
fn a_nonce_of_another_counter_is_refused() {
    let mut plaintext = 7u32.to_le_bytes().to_vec();
    plaintext.extend_from_slice(&300u16.to_le_bytes());
    let mut payload = sealed(nonce_for(8), &plaintext);
    let error = decode_icd_check_in(&Backend, &KEY, &mut payload).unwrap_err();
    assert_eq!(error.code(), ErrorCode::Invalid);
    assert_eq!(payload[..13], nonce_for(8));
    assert_eq!(payload[13..19], plaintext);
}

#[test]
fn the_nonce_is_the_front_of_the_digest() {
    let mut digest = [0; 32];
    for (i, byte) in digest.iter_mut().enumerate() {
        *byte = i as u8;
    }
    let plaintext = [1, 2, 3, 4, 5, 6, 7];
    let expected = IcdCheckInData { counter: 0x0403_0201, active_mode_threshold: 0x0605 };
    assert_eq!(authenticate_check_in(&digest[..13], &plaintext, &digest), Ok(expected));
    let invalid = Err(Error::new(ErrorCode::Invalid));
    assert_eq!(authenticate_check_in(&digest[1..14], &plaintext, &digest), invalid);
    assert_eq!(authenticate_check_in(&digest[..12], &plaintext, &digest), invalid);
    assert_eq!(authenticate_check_in(&digest, &plaintext, &digest), invalid);
}

#[test]
fn no_counter_is_accepted_twice() {
    let start = u32::MAX - 1;
    let mut last = 0;
    let mut accepted = Vec::new();
    for counter in [start, start + 1, start + 1, 0, u32::MAX, 3, 2, 3, 4] {
        if let Some(position) = validate_icd_check_in_counter(start, last, counter) {
            assert!(position.offset > last);
            last = position.offset;
            accepted.push(counter);
        }
    }
    assert_eq!(accepted, vec![u32::MAX, 0, 3, 4]);
}

#[test]
fn the_next_counter_is_accepted_around_the_end() {
    assert_eq!(
        validate_icd_check_in_counter(u32::MAX, 0, 0),
        Some(IcdCheckInCounter { offset: 1, refresh_needed: false })
    );
    assert_eq!(
        validate_icd_check_in_counter(5, 0x7fff_ffff, 0x8000_0005),
        Some(IcdCheckInCounter { offset: 0x8000_0000, refresh_needed: true })
    );
    assert_eq!(
        validate_icd_check_in_counter(5, 0x7fff_fffe, 0x8000_0004),
        Some(IcdCheckInCounter { offset: 0x7fff_ffff, refresh_needed: false })
    );
    assert_eq!(validate_icd_check_in_counter(5, u32::MAX, 4), None);
}

/// Fails at one of its operations.
struct Failing {
    at: usize,
}

struct FailingHmac {
    at: usize,
}

fn failure(at: usize) -> Error {
    let codes = [
        ErrorCode::NoExchange,
        ErrorCode::NoSpace,
        ErrorCode::InvalidData,
        ErrorCode::InvalidAction,
    ];
    Error::new(codes[at])
}

impl Digest for FailingHmac {
    fn update(&mut self, _data: &[u8]) -> Result<(), Error> {
        if self.at == 2 {
            return Err(failure(2));
        }
        Ok(())
    }

    fn finish(self, _digest: &mut [u8; HMAC_LEN]) -> Result<(), Error> {
        Err(failure(3))
    }
}

impl Crypto for Failing {
    type Aead = BackendAead;
    type Hmac = FailingHmac;

    fn aead(&self) -> Result<BackendAead, Error> {
        if self.at == 0 {
            return Err(failure(0));
        }
        Ok(BackendAead)
    }

    fn hmac(&self, _key: &[u8; AEAD_KEY_LEN]) -> Result<FailingHmac, Error> {
        if self.at == 1 {
            return Err(failure(1));
        }
        Ok(FailingHmac { at: self.at })
    }
}

#[test]
fn the_error_of_the_backend_is_passed_on() {
    for at in 0..4 {
        let whole = check_in(7, 300, b"");
        let mut payload = whole.clone();
        let error = decode_icd_check_in(&Failing { at }, &KEY, &mut payload).unwrap_err();
        assert_eq!(error, failure(at));
        if at == 0 {
            assert_eq!(payload, whole);
        } else {
            assert_eq!(payload[..13], whole[..13]);
            assert_eq!(payload[13..17], 7u32.to_le_bytes());
            assert_eq!(payload[17..19], 300u16.to_le_bytes());
        }
    }
}
