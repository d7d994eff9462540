//! Check-ins of intermittently connected devices.
use vstd::prelude::*;

use subtle::ConstantTimeEq;

use crate::crypto::{
    Aead, Crypto, Digest, AEAD_KEY_LEN, AEAD_NONCE_LEN, AEAD_TAG_LEN, HMAC_LEN,
};
use crate::error::{Error, ErrorCode};
use crate::le::{
    from_le16, from_le32, le32, lemma_le32_writes_back, u16_from_le, u32_from_le, u32_to_le,
};

verus! {

/// The authenticated data of a check-in message.
#[derive(Clone, Copy, Debug, PartialEq, Eq, Structural)]
pub struct IcdCheckInData {
    /// The counter that the device counts its check-ins with.
    pub counter: u32,
    /// How long the device stays active, in seconds.
    pub active_mode_threshold: u16,
}

/// Where a check-in counter stands in the window of its registration.
#[derive(Clone, Copy, Debug, PartialEq, Eq, Structural)]
pub struct IcdCheckInCounter {
    pub offset: u32,
    pub refresh_needed: bool,
}

/// The shortest ciphertext: counter, threshold and tag.
pub const MIN_CIPHERTEXT_LEN: usize = 4 + 2 + AEAD_TAG_LEN;

/// The shortest payload: nonce and ciphertext.
pub const MIN_PAYLOAD_LEN: usize = AEAD_NONCE_LEN + MIN_CIPHERTEXT_LEN;

/// The counter at the front of a decrypted check-in.
pub open spec fn check_in_counter(plaintext: Seq<u8>) -> u32 {
    from_le32(plaintext.take(4))
}

/// What a decrypted check-in says.
pub open spec fn check_in_data(plaintext: Seq<u8>) -> IcdCheckInData {
    IcdCheckInData {
        counter: check_in_counter(plaintext),
        active_mode_threshold: from_le16(plaintext.subrange(4, 6)),
    }
}

/// Calls `subtle::ConstantTimeEq::ct_eq` on two byte slices.
///
/// The result tells whether the slices are equal, lengths included. That the
/// comparison takes the same time for all contents is not stated.
#[verifier::external_body]
fn same_bytes(a: &[u8], b: &[u8]) -> (same: bool)
    ensures
        same == (a@ == b@),
{
    bool::from(a.ct_eq(b))
}

/// What comes of a decrypted check-in with this nonce, where the digest of its counter is
/// known.
pub open spec fn authenticated_check_in(
    nonce: Seq<u8>,
    plaintext: Seq<u8>,
    digest: Seq<u8>,
) -> Result<IcdCheckInData, Error> {
    if nonce == digest.take(AEAD_NONCE_LEN as int) {
        Ok(check_in_data(plaintext))
    } else {
        Err(Error { code: ErrorCode::Invalid })
    }
}

/// What a check-in says, if its nonce is the first 13 bytes of the digest of its
/// counter.
pub fn authenticate_check_in(nonce: &[u8], plaintext: &[u8], digest: &[u8; HMAC_LEN]) -> (r: Result<
    IcdCheckInData,
    Error,
>)
    requires
        plaintext@.len() >= 6,
    ensures
        r == authenticated_check_in(nonce@, plaintext@, digest@),
        nonce@ == digest@.take(AEAD_NONCE_LEN as int) ==> r == Ok::<IcdCheckInData, Error>(
            check_in_data(plaintext@),
        ),
        nonce@ != digest@.take(AEAD_NONCE_LEN as int) ==> r == Err::<IcdCheckInData, Error>(
            (Error { code: ErrorCode::Invalid }),
        ),
{
    let expected = vstd::slice::slice_subrange(digest.as_slice(), 0, AEAD_NONCE_LEN);
    if !same_bytes(nonce, expected) {
        return Err(Error::new(ErrorCode::Invalid));
    }
    let rest = vstd::slice::slice_subrange(plaintext, 4, 6);
    assert(rest@.take(2) =~= rest@);
    Ok(
        IcdCheckInData {
            counter: u32_from_le(plaintext),
            active_mode_threshold: u16_from_le(rest),
        },
    )
}

/// Whether a check-in payload is genuine under a key, and decrypts to `plaintext`:
/// the ciphertext opens under the nonce in front, and the nonce is made from the
/// counter inside.
pub open spec fn genuine_check_in<C: Crypto>(
    key: Seq<u8>,
    payload: Seq<u8>,
    plaintext: Seq<u8>,
) -> bool {
    let nonce = payload.take(AEAD_NONCE_LEN as int);
    &&& payload.len() >= MIN_PAYLOAD_LEN
    &&& C::Aead::opened(key, nonce, Seq::empty(), payload.skip(AEAD_NONCE_LEN as int)) == Some(
        plaintext,
    )
    &&& nonce == C::Hmac::digest(key, le32(check_in_counter(plaintext))).take(
        AEAD_NONCE_LEN as int,
    )
}

/// Whether a check-in payload that is long enough can be refused with this error, and
/// `after` be left of it.
///
/// Where the backend cannot offer decryption, the payload is left alone. Where it refuses
/// the ciphertext, nothing is known of what is left behind the nonce. In all other cases
/// it is the plaintext: where the digest of the counter cannot be made, and where the
/// nonce is not made from the counter, which is invalid.
pub open spec fn check_in_refused<C: Crypto>(
    crypto: &C,
    key: Seq<u8>,
    payload: Seq<u8>,
    after: Seq<u8>,
    error: Error,
) -> bool {
    let nonce = payload.take(AEAD_NONCE_LEN as int);
    let sealed = payload.skip(AEAD_NONCE_LEN as int);
    let plaintext = after.subrange(AEAD_NONCE_LEN as int, payload.len() - AEAD_TAG_LEN);
    ||| crypto.aead_fails_with(error) && after == payload
    ||| C::Aead::refuses(key, nonce, Seq::empty(), sealed, error)
    ||| {
        &&& C::Aead::opened(key, nonce, Seq::empty(), sealed) == Some(plaintext)
        &&& {
            ||| crypto.hmac_fails_with(key, error)
            ||| C::Hmac::fails_with(key, le32(check_in_counter(plaintext)), error)
            ||| !genuine_check_in::<C>(key, payload, plaintext) && error == (Error {
                code: ErrorCode::Invalid,
            })
        }
    }
}

/// The digest of a counter under a key.
fn counter_digest<C: Crypto>(crypto: &C, key: &[u8; AEAD_KEY_LEN], counter: u32) -> (r: Result<
    [u8; HMAC_LEN],
    Error,
>)
    ensures
        r matches Ok(digest) ==> digest@ == C::Hmac::digest(key@, le32(counter)),
        r matches Err(error) ==> crypto.hmac_fails_with(key@, error) || C::Hmac::fails_with(
            key@,
            le32(counter),
            error,
        ),
{
    let mut hmac = crypto.hmac(key)?;
    let counter_bytes: [u8; 4] = u32_to_le(counter);
    assert(hmac.input() + counter_bytes@ =~= le32(counter));
    hmac.update(&counter_bytes)?;
    let mut digest: [u8; HMAC_LEN] = [0;HMAC_LEN];
    hmac.finish(&mut digest)?;
    Ok(digest)
}

/// Decrypts and authenticates a check-in payload in place.
///
/// The payload is the nonce, then AES-CCM ciphertext and its tag. The plaintext
/// begins with the counter and the active mode threshold, and stands behind the
/// nonce afterwards, also where the payload opens and is refused all the same. Nothing
/// but a genuine payload is accepted. A genuine payload is refused only where the backend
/// fails, and one that opens and is not genuine as invalid. Where the backend refuses the
/// ciphertext or fails, its error is passed on.
pub fn decode_icd_check_in<C: Crypto>(
    crypto: &C,
    key: &[u8; AEAD_KEY_LEN],
    payload: &mut [u8],
) -> (r: Result<IcdCheckInData, Error>)
    ensures
        final(payload)@.len() == old(payload)@.len(),
        old(payload)@.len() < MIN_PAYLOAD_LEN ==> r == Err::<IcdCheckInData, Error>(
            (Error { code: ErrorCode::Invalid }),
        ) && final(payload)@ == old(payload)@,
        old(payload)@.len() >= MIN_PAYLOAD_LEN ==> final(payload)@.take(AEAD_NONCE_LEN as int)
            == old(payload)@.take(AEAD_NONCE_LEN as int),
        old(payload)@.len() >= MIN_PAYLOAD_LEN ==> (r matches Err(error) ==> check_in_refused(
            crypto,
            key@,
            old(payload)@,
            final(payload)@,
            error,
        )),
        r matches Ok(data) ==> {
            let plaintext = final(payload)@.subrange(
                AEAD_NONCE_LEN as int,
                old(payload)@.len() - AEAD_TAG_LEN,
            );
            genuine_check_in::<C>(key@, old(payload)@, plaintext) && data == check_in_data(
                plaintext,
            )
        },
{
    if payload.len() < MIN_PAYLOAD_LEN {
        return Err(Error::new(ErrorCode::Invalid));
    }
    let mut aead = crypto.aead()?;
    let ghost received = payload@;
    let (received_nonce, encrypted) = payload.split_at_mut(AEAD_NONCE_LEN);
    let nonce: [u8; AEAD_NONCE_LEN] = [
        received_nonce[0],
        received_nonce[1],
        received_nonce[2],
        received_nonce[3],
        received_nonce[4],
        received_nonce[5],
        received_nonce[6],
        received_nonce[7],
        received_nonce[8],
        received_nonce[9],
        received_nonce[10],
        received_nonce[11],
        received_nonce[12],
    ];
    proof {
        assert(nonce@ =~= received.take(AEAD_NONCE_LEN as int));
        assert(encrypted@ =~= received.skip(AEAD_NONCE_LEN as int));
    }
    let no_data: [u8; 0] = [];
    assert(no_data@ =~= Seq::<u8>::empty());
    let len: usize = aead.decrypt_in_place(key, &nonce, &no_data, encrypted)?;
    let ghost opened = encrypted@;
    let plaintext = vstd::slice::slice_subrange(&*encrypted, 0, len);
    assert(plaintext@ =~= opened.take(len as int));
    let counter: u32 = u32_from_le(plaintext);
    let r = match counter_digest(crypto, key, counter) {
        Ok(digest) => authenticate_check_in(&nonce, plaintext, &digest),
        Err(error) => Err(error),
    };
    proof {
        assert(payload@ =~= nonce@ + opened);
        assert(payload@.subrange(AEAD_NONCE_LEN as int, received.len() - AEAD_TAG_LEN)
            =~= opened.take(len as int));
    }
    r
}

/// How far a counter is past the start of its registration, counting around.
pub open spec fn counter_offset(counter_start: u32, counter: u32) -> u32 {
    ((counter - counter_start) % 0x1_0000_0000) as u32
}

/// What becomes of a counter where the last accepted offset is `last_offset`.
pub open spec fn judged_counter(counter_start: u32, last_offset: u32, counter: u32) -> Option<
    IcdCheckInCounter,
> {
    let offset = counter_offset(counter_start, counter);
    if offset > last_offset {
        Some(IcdCheckInCounter { offset, refresh_needed: offset >= 0x8000_0000 })
    } else {
        None
    }
}

/// Checks a counter against the offset last accepted for its registration.
///
/// Counters count around. A counter is accepted where its offset is past the last one.
/// Once the offset is in the upper half of the counter space, the registration is due
/// for a refresh. Repeated, stale and reordered counters give `None`.
pub fn validate_icd_check_in_counter(counter_start: u32, last_offset: u32, counter: u32) -> (r:
    Option<IcdCheckInCounter>)
    ensures
        r == judged_counter(counter_start, last_offset, counter),
{
    let offset: u32 = counter.wrapping_sub(counter_start);
    assert(offset == counter_offset(counter_start, counter));
    if offset <= last_offset {
        None
    } else {
        Some(IcdCheckInCounter { offset, refresh_needed: offset >= 0x8000_0000 })
    }
}

/// The offset last accepted after some counters came in, one after the other.
pub open spec fn last_accepted(counter_start: u32, last_offset: u32, counters: Seq<u32>) -> u32
    decreases counters.len(),
{
    if counters.len() == 0 {
        last_offset
    } else {
        let before = last_accepted(counter_start, last_offset, counters.drop_last());
        match judged_counter(counter_start, before, counters.last()) {
            Some(accepted) => accepted.offset,
            None => before,
        }
    }
}

/// The last accepted offset never goes back.
proof fn lemma_last_accepted_grows(
    counter_start: u32,
    last_offset: u32,
    counters: Seq<u32>,
    i: int,
)
    requires
        0 <= i <= counters.len(),
    ensures
        last_accepted(counter_start, last_offset, counters.take(i)) <= last_accepted(
            counter_start,
            last_offset,
            counters,
        ),
    decreases counters.len(),
{
    if i < counters.len() {
        lemma_last_accepted_grows(counter_start, last_offset, counters.drop_last(), i);
        assert(counters.drop_last().take(i) =~= counters.take(i));
    } else {
        assert(counters.take(i) =~= counters);
    }
}

/// Whatever counters come in, the offset of one that is accepted is past the offsets
/// of all that were accepted before. So no counter is accepted twice, and none that is
/// older than an accepted one.
pub proof fn law_accepted_counters_advance(
    counter_start: u32,
    last_offset: u32,
    counters: Seq<u32>,
    i: int,
    j: int,
)
    requires
        0 <= i < j < counters.len(),
    ensures
        ({
            let first = judged_counter(
                counter_start,
                last_accepted(counter_start, last_offset, counters.take(i)),
                counters[i],
            );
            let second = judged_counter(
                counter_start,
                last_accepted(counter_start, last_offset, counters.take(j)),
                counters[j],
            );
            first is Some && second is Some ==> first->0.offset < second->0.offset
                && counters[i] != counters[j]
        }),
{
    let until = counters.take(i + 1);
    assert(until.drop_last() =~= counters.take(i));
    assert(until.last() == counters[i]);
    lemma_last_accepted_grows(counter_start, last_offset, counters.take(j), i + 1);
    assert(counters.take(j).take(i + 1) =~= until);
}

/// A counter that is one past the last accepted one is accepted, also where it counts
/// around, as long as the counter space of the registration is not used up.
pub proof fn law_the_next_counter_is_accepted(counter_start: u32, last_offset: u32, counter: u32)
    requires
        last_offset < u32::MAX,
        counter == (counter_start + last_offset + 1) % 0x1_0000_0000,
    ensures
        judged_counter(counter_start, last_offset, counter) == Some(
            IcdCheckInCounter {
                offset: (last_offset + 1) as u32,
                refresh_needed: last_offset + 1 >= 0x8000_0000,
            },
        ),
{
}

/// An accepted counter is as far past the start as its offset says, counting around, and
/// farther than the last accepted one. A registration is due for a refresh exactly where
/// the offset has reached the upper half of the counter space, however many check-ins
/// came before.
pub proof fn law_what_an_accepted_counter_tells(
    counter_start: u32,
    last_offset: u32,
    counter: u32,
)
    ensures
        judged_counter(counter_start, last_offset, counter) matches Some(accepted) ==> {
            &&& (counter_start + accepted.offset) % 0x1_0000_0000 == counter
            &&& accepted.offset > last_offset
            &&& accepted.refresh_needed <==> accepted.offset >= 0x8000_0000
        },
{
}

/// A counter is refused exactly where it is the start of the registration or one of those
/// up to the last accepted one.
pub proof fn law_which_counters_are_refused(counter_start: u32, last_offset: u32, counter: u32)
    ensures
        judged_counter(counter_start, last_offset, counter) is None <==> exists|past: u32|
            past <= last_offset && counter == #[trigger] (counter_start + past)
                % 0x1_0000_0000,
{
    let offset = ((counter - counter_start) % 0x1_0000_0000) as u32;
    assert(counter == (counter_start + offset) % 0x1_0000_0000);
    if judged_counter(counter_start, last_offset, counter) is None {
        assert(offset <= last_offset);
    }
}

/// What an accepted counter tells does not depend on what was accepted before it.
pub proof fn law_acceptance_does_not_depend_on_the_past(
    counter_start: u32,
    first_last: u32,
    second_last: u32,
    counter: u32,
)
    requires
        judged_counter(counter_start, first_last, counter) is Some,
        judged_counter(counter_start, second_last, counter) is Some,
    ensures
        judged_counter(counter_start, first_last, counter) == judged_counter(
            counter_start,
            second_last,
            counter,
        ),
{
}

/// A check-in begins with four bytes of counter and two of threshold, least significant
/// first.
pub proof fn law_where_a_check_in_holds_its_data(plaintext: Seq<u8>)
    requires
        plaintext.len() >= 6,
    ensures
        check_in_data(plaintext).counter == plaintext[0] + 0x100 * plaintext[1] + 0x1_0000
            * plaintext[2] + 0x100_0000 * plaintext[3],
        check_in_data(plaintext).active_mode_threshold == plaintext[4] + 0x100 * plaintext[5],
{
}

/// The nonce in front of a genuine check-in is the beginning of the digest of the first
/// four bytes inside, and the rest of it opens under that nonce with no data added.
pub proof fn law_what_makes_a_check_in_genuine<C: Crypto>(
    key: Seq<u8>,
    payload: Seq<u8>,
    plaintext: Seq<u8>,
)
    requires
        plaintext.len() >= 6,
    ensures
        genuine_check_in::<C>(key, payload, plaintext) <==> {
            &&& payload.len() >= 35
            &&& payload.take(13) == C::Hmac::digest(key, plaintext.take(4)).take(13)
            &&& C::Aead::opened(key, payload.take(13), Seq::empty(), payload.skip(13)) == Some(
                plaintext,
            )
        },
{
    lemma_le32_writes_back(plaintext.take(4));
}

/// A genuine check-in is refused only with an error of the backend.
pub proof fn law_genuine_check_ins_are_refused_by_the_backend_alone<C: Crypto>(
    crypto: &C,
    key: Seq<u8>,
    payload: Seq<u8>,
    plaintext: Seq<u8>,
    after: Seq<u8>,
    error: Error,
)
    requires
        plaintext.len() >= 6,
        genuine_check_in::<C>(key, payload, plaintext),
        check_in_refused(crypto, key, payload, after, error),
    ensures
        ({
            let nonce = payload.take(13);
            ||| crypto.aead_fails_with(error)
            ||| C::Aead::refuses(key, nonce, Seq::empty(), payload.skip(13), error)
            ||| crypto.hmac_fails_with(key, error)
            ||| C::Hmac::fails_with(key, plaintext.take(4), error)
        }),
{
    lemma_le32_writes_back(plaintext.take(4));
}

/// Where the backend does not fail, a refused check-in is invalid, its nonce is not made
/// from the counter inside, and its plaintext is left behind the nonce.
pub proof fn law_a_false_nonce_is_invalid<C: Crypto>(
    crypto: &C,
    key: Seq<u8>,
    payload: Seq<u8>,
    after: Seq<u8>,
    error: Error,
)
    requires
        check_in_refused(crypto, key, payload, after, error),
        payload.len() >= 35,
        after.len() == payload.len(),
        !crypto.aead_fails_with(error),
        !crypto.hmac_fails_with(key, error),
        !C::Aead::refuses(key, payload.take(13), Seq::empty(), payload.skip(13), error),
        forall|input: Seq<u8>| !#[trigger] C::Hmac::fails_with(key, input, error),
    ensures
        error.code == ErrorCode::Invalid,
        ({
            let plaintext = after.subrange(13, payload.len() - 16);
            &&& C::Aead::opened(key, payload.take(13), Seq::empty(), payload.skip(13)) == Some(
                plaintext,
            )
            &&& payload.take(13) != C::Hmac::digest(key, plaintext.take(4)).take(13)
        }),
{
    let plaintext = after.subrange(13, payload.len() - 16);
    lemma_le32_writes_back(plaintext.take(4));
}

/// A nonce is good for a digest exactly where it is thirteen bytes long and each of them
/// is that of the digest.
pub proof fn law_nonces_are_compared_whole(nonce: Seq<u8>, plaintext: Seq<u8>, digest: Seq<u8>)
    requires
        plaintext.len() >= 6,
        digest.len() == 32,
    ensures
        authenticated_check_in(nonce, plaintext, digest) is Ok <==> nonce.len() == 13 && forall|
            i: int,
        |
            0 <= i < 13 ==> nonce[i] == digest[i],
        authenticated_check_in(nonce, plaintext, digest) matches Err(error) ==> error.code
            == ErrorCode::Invalid,
{
    if nonce.len() == 13 && forall|i: int| 0 <= i < 13 ==> nonce[i] == digest[i] {
        assert(nonce =~= digest.take(13));
    }
}

} // verus!
