//! Verification of a registration response: splitting the raw bytes, rebuilding
//! the signed message, and checking the attestation signature.

use crate::crypto::{
    certificate_key, certificate_verdict, p256_signature_check, sha256, sha256_digest, signature_verdict, validate_certificate,
    verify_signature, TrustPolicy, PUBLIC_KEY_SIZE, UNCOMPRESSED_MARKER,
};
use crate::u2ferror::{kind_of, ErrorKind, U2fError};
use crate::util::{
    copy_range, declared_length, decode_length, expired, generate_challenge_randomness, is_expired,
    Timestamp, MAX_CHALLENGE_SIZE,
};
use vstd::prelude::*;
use vstd::string::StringSliceAdditionalSpecFns;

verus! {

/// The first byte of every registration response.
pub const RESERVED_BYTE: u8 = 0x05;

/// Where the key handle starts: after the reserved byte, the public key and
/// the byte that gives the handle's length.
pub const KEY_HANDLE_START: usize = 67;

/// Random bytes issued for one ceremony, with the time of issue.
#[derive(Clone, Debug)]
pub struct Challenge {
    pub bytes: Vec<u8>,
    pub issued_at: Timestamp,
}

/// The fewest bytes that a challenge may hold.
pub const MIN_CHALLENGE_SIZE: usize = 16;

impl Challenge {
    /// A challenge holds at least `MIN_CHALLENGE_SIZE` bytes.
    pub open spec fn well_formed(&self) -> bool {
        self.bytes@.len() >= MIN_CHALLENGE_SIZE
    }

    /// Draws a fresh challenge of `size` random bytes, issued at `issued_at`.
    /// Fails with `RandomSecureBytesError` where the random source does.
    pub fn issue(size: usize, issued_at: Timestamp) -> (r: Result<Challenge, U2fError>)
        requires
            size >= MIN_CHALLENGE_SIZE,
        ensures
            match r {
                Ok(challenge) => challenge.well_formed() && challenge.bytes@.len() == size
                    && challenge.issued_at == issued_at,
                Err(e) => e is RandomSecureBytesError,
            },
            size > MAX_CHALLENGE_SIZE ==> r is Err,
    {
        match generate_challenge_randomness(size) {
            Ok(bytes) => Ok(Challenge { bytes: bytes, issued_at: issued_at }),
            Err(e) => Err(e),
        }
    }
}

/// The fields of a registration response, as byte strings.
pub struct RegistrationLayout {
    pub public_key: Seq<u8>,
    pub key_handle: Seq<u8>,
    pub certificate: Seq<u8>,
    pub signature: Seq<u8>,
}

/// The fields of a registration response, cut out of the raw bytes.
#[derive(Clone, Debug)]
pub struct RegistrationParts {
    pub public_key: Vec<u8>,
    pub key_handle: Vec<u8>,
    pub certificate: Vec<u8>,
    pub signature: Vec<u8>,
}

impl View for RegistrationParts {
    type V = RegistrationLayout;

    open spec fn view(&self) -> RegistrationLayout {
        RegistrationLayout {
            public_key: self.public_key@,
            key_handle: self.key_handle@,
            certificate: self.certificate@,
            signature: self.signature@,
        }
    }
}

/// A registered credential as a mathematical value.
pub struct RegistrationModel {
    pub key_handle: Seq<u8>,
    pub public_key: Seq<u8>,
    pub attestation_certificate: Seq<u8>,
    pub counter: u32,
    pub authenticated: bool,
}

/// A registered credential. The key handle and the public key never change.
/// `counter` is the last counter value that an authentication showed, and
/// `authenticated` says whether there has been one: until then the counter is 0
/// and any first value is accepted; after that only a greater one.
#[derive(Clone, Debug)]
pub struct Registration {
    pub key_handle: Vec<u8>,
    pub public_key: Vec<u8>,
    pub attestation_certificate: Vec<u8>,
    pub counter: u32,
    pub authenticated: bool,
}

impl View for Registration {
    type V = RegistrationModel;

    open spec fn view(&self) -> RegistrationModel {
        RegistrationModel {
            key_handle: self.key_handle@,
            public_key: self.public_key@,
            attestation_certificate: self.attestation_certificate@,
            counter: self.counter,
            authenticated: self.authenticated,
        }
    }
}

/// Whether a counter value shown by the device is acceptable for a credential:
/// any value at first use, afterwards only one strictly above the stored one.
pub open spec fn counter_accepted(registration: RegistrationModel, counter: u32) -> bool {
    !registration.authenticated || counter > registration.counter
}

/// The credential after an authentication that showed `counter`.
pub open spec fn with_counter(registration: RegistrationModel, counter: u32) -> RegistrationModel {
    RegistrationModel { counter: counter, authenticated: true, ..registration }
}

impl Registration {
    /// A credential holds an uncompressed public key and a key handle whose
    /// length fits in one byte, and its counter is 0 until first use.
    pub open spec fn well_formed(&self) -> bool {
        &&& self.public_key@.len() == PUBLIC_KEY_SIZE
        &&& self.public_key@[0] == UNCOMPRESSED_MARKER
        &&& self.key_handle@.len() <= 255
        &&& !self.authenticated ==> self.counter == 0
    }

    /// Stores the counter of a successful authentication. A value that is not
    /// acceptable is refused with `CounterTooLow` and changes nothing.
    pub fn record_counter(&mut self, counter: u32) -> (r: Result<(), U2fError>)
        ensures
            counter_accepted(old(self)@, counter) ==> r is Ok && final(self)@ == with_counter(
                old(self)@,
                counter,
            ),
            !counter_accepted(old(self)@, counter) ==> (r matches Err(e) && e is CounterTooLow)
                && final(self)@ == old(self)@,
            final(self).counter >= old(self).counter || !old(self).authenticated,
            old(self).well_formed() ==> final(self).well_formed(),
    {
        if self.authenticated && counter <= self.counter {
            return Err(U2fError::CounterTooLow);
        }
        self.counter = counter;
        self.authenticated = true;
        Ok(())
    }
}

/// How a registration response divides into its fields.
///
/// The bytes are, in order: the reserved byte `0x05`; the 65 bytes of the
/// public key, which starts with the marker `0x04`; one byte `L`; the `L` bytes
/// of the key handle; the attestation certificate, whose span is the length that
/// its first bytes declare; and the signature, which is all that follows.
/// A response that ends before a field does is `InvalidClientData`; a
/// certificate whose header is malformed, or whose declared length runs past the
/// end, is `Asm1DecoderError`.
pub open spec fn registration_layout(data: Seq<u8>) -> Result<RegistrationLayout, ErrorKind> {
    if data.len() == 0 {
        Err(ErrorKind::InvalidClientData)
    } else if data[0] != RESERVED_BYTE {
        Err(ErrorKind::InvalidReservedByte)
    } else if data.len() < KEY_HANDLE_START {
        Err(ErrorKind::InvalidClientData)
    } else if data[1] != UNCOMPRESSED_MARKER {
        Err(ErrorKind::InvalidPublicKey)
    } else {
        let handle_end = KEY_HANDLE_START + data[KEY_HANDLE_START - 1] as int;
        if data.len() < handle_end {
            Err(ErrorKind::InvalidClientData)
        } else {
            let rest = data.subrange(handle_end, data.len() as int);
            match declared_length(rest) {
                None => Err(ErrorKind::Asm1DecoderError),
                Some(span) => if span > rest.len() {
                    Err(ErrorKind::Asm1DecoderError)
                } else {
                    Ok(
                        (RegistrationLayout {
                            public_key: data.subrange(1, 1 + PUBLIC_KEY_SIZE as int),
                            key_handle: data.subrange(KEY_HANDLE_START as int, handle_end),
                            certificate: rest.subrange(0, span as int),
                            signature: rest.subrange(span as int, rest.len() as int),
                        }),
                    )
                },
            }
        }
    }
}

/// Cuts a registration response into its fields, checking every length before
/// it is used.
pub fn split_registration(data: &[u8]) -> (r: Result<RegistrationParts, U2fError>)
    ensures
        match registration_layout(data@) {
            Ok(layout) => r matches Ok(parts) && parts@ == layout,
            Err(kind) => r matches Err(e) && kind_of(e) == kind,
        },
{
    if data.len() == 0 {
        return Err(U2fError::InvalidClientData);
    }
    if data[0] != RESERVED_BYTE {
        return Err(U2fError::InvalidReservedByte);
    }
    if data.len() < KEY_HANDLE_START {
        return Err(U2fError::InvalidClientData);
    }
    if data[1] != UNCOMPRESSED_MARKER {
        return Err(U2fError::InvalidPublicKey);
    }
    let handle_size: usize = data[KEY_HANDLE_START - 1] as usize;
    if data.len() - KEY_HANDLE_START < handle_size {
        return Err(U2fError::InvalidClientData);
    }
    let handle_end: usize = KEY_HANDLE_START + handle_size;
    let rest = copy_range(data, handle_end, data.len());
    let span: usize = match decode_length(rest.as_slice()) {
        Ok(span) => span,
        Err(_) => {
            return Err(U2fError::Asm1DecoderError);
        },
    };
    if span > rest.len() {
        return Err(U2fError::Asm1DecoderError);
    }
    Ok(
        RegistrationParts {
            public_key: copy_range(data, 1, 1 + PUBLIC_KEY_SIZE),
            key_handle: copy_range(data, KEY_HANDLE_START, handle_end),
            certificate: copy_range(rest.as_slice(), 0, span),
            signature: copy_range(rest.as_slice(), span, rest.len()),
        },
    )
}

/// The byte string that a device signs at registration: a zero byte, the digest
/// of the application identifier, the digest of the challenge, the key handle
/// and the public key, in this order.
pub open spec fn registration_message(
    app_id: Seq<u8>,
    challenge: Seq<u8>,
    key_handle: Seq<u8>,
    public_key: Seq<u8>,
) -> Seq<u8> {
    seq![0u8] + sha256_digest(app_id) + sha256_digest(challenge) + key_handle + public_key
}

/// Builds the byte string that a device signs at registration.
pub fn build_registration_message(
    app_id: &[u8],
    challenge: &[u8],
    key_handle: &[u8],
    public_key: &[u8],
) -> (message: Vec<u8>)
    ensures
        message@ == registration_message(app_id@, challenge@, key_handle@, public_key@),
{
    let mut message: Vec<u8> = Vec::new();
    message.push(0u8);
    assert(message@ =~= seq![0u8]);
    let app_digest = sha256(app_id);
    let challenge_digest = sha256(challenge);
    message.extend_from_slice(app_digest.as_slice());
    message.extend_from_slice(challenge_digest.as_slice());
    message.extend_from_slice(key_handle);
    message.extend_from_slice(public_key);
    message
}

/// What the registration verifier answers.
///
/// An empty response is `InvalidClientData` and a wrong reserved byte is
/// `InvalidReservedByte`, before anything else is looked at. Then a stale
/// challenge is `ChallengeExpired`. Then the response is divided into its
/// fields, the attestation certificate is validated under the trust policy, and
/// the signature is checked with the certificate's key over the rebuilt message;
/// the first failure is the answer. On success the answer is a fresh credential.
pub open spec fn registration_verdict(
    data: Seq<u8>,
    app_id: Seq<u8>,
    challenge: Seq<u8>,
    issued_at: Timestamp,
    now: Timestamp,
    ttl: u64,
    policy: TrustPolicy,
) -> Result<RegistrationModel, ErrorKind> {
    if data.len() == 0 {
        Err(ErrorKind::InvalidClientData)
    } else if data[0] != RESERVED_BYTE {
        Err(ErrorKind::InvalidReservedByte)
    } else if expired(issued_at, now, ttl) {
        Err(ErrorKind::ChallengeExpired)
    } else {
        match registration_layout(data) {
            Err(kind) => Err(kind),
            Ok(parts) => match certificate_verdict(parts.certificate, policy) {
                Err(kind) => Err(kind),
                Ok(key) => match signature_verdict(
                    key,
                    registration_message(app_id, challenge, parts.key_handle, parts.public_key),
                    parts.signature,
                ) {
                    Err(kind) => Err(kind),
                    Ok(_) => Ok(
                        (RegistrationModel {
                            key_handle: parts.key_handle,
                            public_key: parts.public_key,
                            attestation_certificate: parts.certificate,
                            counter: 0,
                            authenticated: false,
                        }),
                    ),
                },
            },
        }
    }
}

/// Verifies a registration response against the application identifier and the
/// challenge that was issued for it, and returns the new credential.
pub fn verify_registration(
    data: &[u8],
    app_id: &str,
    challenge: &Challenge,
    now: Timestamp,
    ttl: u64,
    policy: &TrustPolicy,
) -> (r: Result<Registration, U2fError>)
    ensures
        match registration_verdict(
            data@,
            app_id.spec_bytes(),
            challenge.bytes@,
            challenge.issued_at,
            now,
            ttl,
            *policy,
        ) {
            Ok(model) => r matches Ok(registration) && registration@ == model
                && registration.well_formed(),
            Err(kind) => r matches Err(e) && kind_of(e) == kind,
        },
        data@.len() > 0 && data@[0] != RESERVED_BYTE ==> (r matches Err(e)
            && e is InvalidReservedByte),
{
    if data.len() == 0 {
        return Err(U2fError::InvalidClientData);
    }
    if data[0] != RESERVED_BYTE {
        return Err(U2fError::InvalidReservedByte);
    }
    if is_expired(challenge.issued_at, now, ttl) {
        return Err(U2fError::ChallengeExpired);
    }
    let parts = split_registration(data)?;
    let key = validate_certificate(parts.certificate.as_slice(), policy)?;
    let message = build_registration_message(
        app_id.as_bytes(),
        challenge.bytes.as_slice(),
        parts.key_handle.as_slice(),
        parts.public_key.as_slice(),
    );
    verify_signature(key.as_slice(), message.as_slice(), parts.signature.as_slice())?;
    Ok(
        Registration {
            key_handle: parts.key_handle,
            public_key: parts.public_key,
            attestation_certificate: parts.certificate,
            counter: 0,
            authenticated: false,
        },
    )
}

/// No credential without a signature: where the registration verifier answers
/// with a credential, the challenge was fresh, the response divides into its
/// fields, and the signature check of the message rebuilt from them, under the
/// key of the certificate in the response, answered that the signature is valid.
pub proof fn lemma_registration_needs_signature(
    data: Seq<u8>,
    app_id: Seq<u8>,
    challenge: Seq<u8>,
    issued_at: Timestamp,
    now: Timestamp,
    ttl: u64,
    policy: TrustPolicy,
)
    requires
        registration_verdict(data, app_id, challenge, issued_at, now, ttl, policy) is Ok,
    ensures
        !expired(issued_at, now, ttl),
        registration_layout(data) is Ok,
        certificate_key(registration_layout(data)->Ok_0.certificate) is Some,
        p256_signature_check(
            certificate_key(registration_layout(data)->Ok_0.certificate)->Some_0,
            registration_message(
                app_id,
                challenge,
                registration_layout(data)->Ok_0.key_handle,
                registration_layout(data)->Ok_0.public_key,
            ),
            registration_layout(data)->Ok_0.signature,
        ) == Some(true),
{
}

/// A wrong reserved byte decides the answer whatever else the response, the
/// clock or the trust policy hold.
pub proof fn lemma_reserved_byte_decides(
    data: Seq<u8>,
    app_id: Seq<u8>,
    challenge: Seq<u8>,
    issued_at: Timestamp,
    now: Timestamp,
    ttl: u64,
    policy: TrustPolicy,
)
    requires
        data.len() > 0,
        data[0] != RESERVED_BYTE,
    ensures
        registration_verdict(data, app_id, challenge, issued_at, now, ttl, policy) == Err::<
            RegistrationModel,
            ErrorKind,
        >(ErrorKind::InvalidReservedByte),
{
}

} // verus!
