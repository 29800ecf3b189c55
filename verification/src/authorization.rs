//! Verification of an authentication response against a stored credential.

use crate::crypto::{
    p256_signature_check, sha256, sha256_digest, signature_verdict, verify_signature,
};
use crate::register::{counter_accepted, with_counter, Challenge, Registration, RegistrationModel};
use crate::u2ferror::{kind_of, ErrorKind, U2fError};
use crate::util::{copy_range, expired, is_expired, same_bytes, Timestamp};
use vstd::prelude::*;
use vstd::string::StringSliceAdditionalSpecFns;

verus! {

/// Where the signature starts: after the user-presence byte and the counter.
pub const SIGNATURE_START: usize = 5;

/// The counter that four bytes spell, most significant byte first.
pub open spec fn counter_value(bytes: Seq<u8>) -> int
    recommends
        bytes.len() == 4,
{
    bytes[0] * 0x100_0000 + bytes[1] * 0x1_0000 + bytes[2] * 0x100 + bytes[3]
}

/// Reads the counter that four bytes spell, most significant byte first.
pub fn read_counter(bytes: &[u8]) -> (counter: u32)
    requires
        bytes@.len() == 4,
    ensures
        counter == counter_value(bytes@),
{
    let b0: u32 = bytes[0] as u32;
    let b1: u32 = bytes[1] as u32;
    let b2: u32 = bytes[2] as u32;
    let b3: u32 = bytes[3] as u32;
    b0 * 0x100_0000 + b1 * 0x1_0000 + b2 * 0x100 + b3
}

/// Whether the user-presence byte says that the device was touched: bit 0.
pub open spec fn user_present(flag: u8) -> bool {
    flag % 2 == 1
}

/// The byte string that a device signs at authentication: the digest of the
/// application identifier, the user-presence byte, the four counter bytes and
/// the digest of the challenge, in this order.
pub open spec fn authentication_message(
    app_id: Seq<u8>,
    flag: u8,
    counter_bytes: Seq<u8>,
    challenge: Seq<u8>,
) -> Seq<u8> {
    sha256_digest(app_id) + seq![flag] + counter_bytes + sha256_digest(challenge)
}

/// Builds the byte string that a device signs at authentication.
pub fn build_authentication_message(
    app_id: &[u8],
    flag: u8,
    counter_bytes: &[u8],
    challenge: &[u8],
) -> (message: Vec<u8>)
    ensures
        message@ == authentication_message(app_id@, flag, counter_bytes@, challenge@),
{
    let mut message: Vec<u8> = sha256(app_id);
    let challenge_digest = sha256(challenge);
    let ghost start = message@;
    message.push(flag);
    assert(message@ =~= start + seq![flag]);
    message.extend_from_slice(counter_bytes);
    message.extend_from_slice(challenge_digest.as_slice());
    message
}

/// What the authentication verifier answers.
///
/// The checks, in order; the first that fails is the answer. A stale challenge
/// is `ChallengeExpired`. A key handle other than the credential's is
/// `WrongKeyHandler`. A response of five bytes or fewer, which leaves no room
/// for a signature, is `InvalidSignatureData`. A user-presence byte with bit 0
/// clear is `InvalidUserPresenceByte`. Then the signature is checked with the
/// credential's public key over the rebuilt message. Last, a counter that is not
/// acceptable for the credential is `CounterTooLow`. On success the answer is
/// the counter that the response holds.
pub open spec fn authentication_verdict(
    data: Seq<u8>,
    key_handle: Seq<u8>,
    app_id: Seq<u8>,
    challenge: Seq<u8>,
    issued_at: Timestamp,
    registration: RegistrationModel,
    now: Timestamp,
    ttl: u64,
) -> Result<u32, ErrorKind> {
    if expired(issued_at, now, ttl) {
        Err(ErrorKind::ChallengeExpired)
    } else if key_handle != registration.key_handle {
        Err(ErrorKind::WrongKeyHandler)
    } else if data.len() <= SIGNATURE_START {
        Err(ErrorKind::InvalidSignatureData)
    } else if !user_present(data[0]) {
        Err(ErrorKind::InvalidUserPresenceByte)
    } else {
        let counter_bytes = data.subrange(1, SIGNATURE_START as int);
        match signature_verdict(
            registration.public_key,
            authentication_message(app_id, data[0], counter_bytes, challenge),
            data.subrange(SIGNATURE_START as int, data.len() as int),
        ) {
            Err(kind) => Err(kind),
            Ok(_) => if counter_accepted(registration, counter_value(counter_bytes) as u32) {
                Ok(counter_value(counter_bytes) as u32)
            } else {
                Err(ErrorKind::CounterTooLow)
            },
        }
    }
}

/// Verifies an authentication response for the credential `registration` and
/// returns the counter that it shows. The credential is not changed: the caller
/// stores the counter with `Registration::record_counter`.
pub fn verify_authentication(
    data: &[u8],
    key_handle: &[u8],
    app_id: &str,
    challenge: &Challenge,
    registration: &Registration,
    now: Timestamp,
    ttl: u64,
) -> (r: Result<u32, U2fError>)
    ensures
        match authentication_verdict(
            data@,
            key_handle@,
            app_id.spec_bytes(),
            challenge.bytes@,
            challenge.issued_at,
            registration@,
            now,
            ttl,
        ) {
            Ok(counter) => r == Ok::<u32, U2fError>(counter),
            Err(kind) => r matches Err(e) && kind_of(e) == kind,
        },
        expired(challenge.issued_at, now, ttl) ==> (r matches Err(e) && e is ChallengeExpired),
        r matches Ok(counter) ==> counter_accepted(registration@, counter),
{
    if is_expired(challenge.issued_at, now, ttl) {
        return Err(U2fError::ChallengeExpired);
    }
    if !same_bytes(key_handle, registration.key_handle.as_slice()) {
        return Err(U2fError::WrongKeyHandler);
    }
    if data.len() <= SIGNATURE_START {
        return Err(U2fError::InvalidSignatureData);
    }
    let flag: u8 = data[0];
    if flag % 2 != 1 {
        return Err(U2fError::InvalidUserPresenceByte);
    }
    let counter_bytes = copy_range(data, 1, SIGNATURE_START);
    let signature = copy_range(data, SIGNATURE_START, data.len());
    let message = build_authentication_message(
        app_id.as_bytes(),
        flag,
        counter_bytes.as_slice(),
        challenge.bytes.as_slice(),
    );
    verify_signature(registration.public_key.as_slice(), message.as_slice(), signature.as_slice())?;
    let counter: u32 = read_counter(counter_bytes.as_slice());
    if registration.authenticated && counter <= registration.counter {
        return Err(U2fError::CounterTooLow);
    }
    Ok(counter)
}

/// A response that was accepted is refused when it is presented again: once its
/// counter is stored, the same bytes for the same challenge at the same time
/// give `CounterTooLow`.
pub proof fn lemma_replay_rejected(
    data: Seq<u8>,
    key_handle: Seq<u8>,
    app_id: Seq<u8>,
    challenge: Seq<u8>,
    issued_at: Timestamp,
    registration: RegistrationModel,
    now: Timestamp,
    ttl: u64,
)
    requires
        authentication_verdict(
            data,
            key_handle,
            app_id,
            challenge,
            issued_at,
            registration,
            now,
            ttl,
        ) is Ok,
    ensures
        authentication_verdict(
            data,
            key_handle,
            app_id,
            challenge,
            issued_at,
            with_counter(
                registration,
                authentication_verdict(
                    data,
                    key_handle,
                    app_id,
                    challenge,
                    issued_at,
                    registration,
                    now,
                    ttl,
                )->Ok_0,
            ),
            now,
            ttl,
        ) == Err::<u32, ErrorKind>(ErrorKind::CounterTooLow),
{
}

/// Storing counters only moves a used credential's counter upward, and never
/// touches its key handle or public key.
pub proof fn lemma_counter_monotonic(registration: RegistrationModel, counter: u32)
    requires
        counter_accepted(registration, counter),
    ensures
        with_counter(registration, counter).key_handle == registration.key_handle,
        with_counter(registration, counter).public_key == registration.public_key,
        registration.authenticated ==> with_counter(registration, counter).counter
            > registration.counter,
        !counter_accepted(with_counter(registration, counter), counter),
{
}

/// No acceptance without a signature: where the authentication verifier
/// answers with a counter, the challenge was fresh, the user was present, the
/// counter is acceptable for the credential, and the signature check of the
/// rebuilt message under the credential's public key answered that the
/// signature is valid.
pub proof fn lemma_authentication_needs_signature(
    data: Seq<u8>,
    key_handle: Seq<u8>,
    app_id: Seq<u8>,
    challenge: Seq<u8>,
    issued_at: Timestamp,
    registration: RegistrationModel,
    now: Timestamp,
    ttl: u64,
)
    requires
        authentication_verdict(
            data,
            key_handle,
            app_id,
            challenge,
            issued_at,
            registration,
            now,
            ttl,
        ) is Ok,
    ensures
        !expired(issued_at, now, ttl),
        key_handle == registration.key_handle,
        data.len() > SIGNATURE_START,
        user_present(data[0]),
        counter_accepted(
            registration,
            counter_value(data.subrange(1, SIGNATURE_START as int)) as u32,
        ),
        p256_signature_check(
            registration.public_key,
            authentication_message(
                app_id,
                data[0],
                data.subrange(1, SIGNATURE_START as int),
                challenge,
            ),
            data.subrange(SIGNATURE_START as int, data.len() as int),
        ) == Some(true),
{
}

/// A stale challenge decides the answer whatever the response holds.
pub proof fn lemma_stale_challenge_decides(
    data: Seq<u8>,
    key_handle: Seq<u8>,
    app_id: Seq<u8>,
    challenge: Seq<u8>,
    issued_at: Timestamp,
    registration: RegistrationModel,
    now: Timestamp,
    ttl: u64,
)
    requires
        expired(issued_at, now, ttl),
    ensures
        authentication_verdict(
            data,
            key_handle,
            app_id,
            challenge,
            issued_at,
            registration,
            now,
            ttl,
        ) == Err::<u32, ErrorKind>(ErrorKind::ChallengeExpired),
{
}

} // verus!
