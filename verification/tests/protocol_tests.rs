use openssl::asn1::Asn1Time;
use openssl::bn::{BigNum, BigNumContext};
use openssl::ec::{Asn1Flag, EcGroup, EcKey, EcPoint, PointConversionForm};
use openssl::hash::MessageDigest;
use openssl::nid::Nid;
use openssl::pkey::{PKey, Private};
use openssl::sign::Signer;
use openssl::x509::{X509Builder, X509NameBuilder};
use u2::authorization::{build_authentication_message, read_counter, verify_authentication};
use u2::crypto::{signed_by_anchor, validate_certificate, verify_signature, TrustPolicy};
use u2::register::{
    build_registration_message, split_registration, verify_registration, Challenge, Registration,
};
use u2::u2ferror::{ErrorKind, U2fError};
use u2::util::{Timestamp, MAX_CHALLENGE_SIZE};

const APP_ID: &str = "https://example.org";
const TTL: u64 = 300;

fn new_key(nid: Nid) -> PKey<Private> {
    let group = EcGroup::from_curve_name(nid).unwrap();
    PKey::from_ec_key(EcKey::generate(&group).unwrap()).unwrap()
}

fn point_of(key: &PKey<Private>) -> Vec<u8> {
    let ec = key.ec_key().unwrap();
    let mut ctx = BigNumContext::new().unwrap();
    ec.public_key().to_bytes(ec.group(), PointConversionForm::UNCOMPRESSED, &mut ctx).unwrap()
}

fn sign(key: &PKey<Private>, message: &[u8]) -> Vec<u8> {
    let mut signer = Signer::new(MessageDigest::sha256(), key).unwrap();
    signer.update(message).unwrap();
    signer.sign_to_vec().unwrap()
}

fn certificate(subject: &PKey<Private>, issuer: &PKey<Private>) -> Vec<u8> {
    let mut name = X509NameBuilder::new().unwrap();
    name.append_entry_by_text("CN", "token").unwrap();
    let name = name.build();
    let mut builder = X509Builder::new().unwrap();
    builder.set_version(2).unwrap();
    let serial = BigNum::from_u32(7).unwrap().to_asn1_integer().unwrap();
    builder.set_serial_number(&serial).unwrap();
    builder.set_subject_name(&name).unwrap();
    builder.set_issuer_name(&name).unwrap();
    builder.set_pubkey(subject).unwrap();
    builder.set_not_before(&Asn1Time::days_from_now(0).unwrap()).unwrap();
    builder.set_not_after(&Asn1Time::days_from_now(30).unwrap()).unwrap();
    builder.sign(issuer, MessageDigest::sha256()).unwrap();
    builder.build().to_der().unwrap()
}

fn challenge() -> Challenge {
    Challenge { bytes: (0u8..32).collect(), issued_at: Timestamp { secs: 1_000, nanos: 0 } }
}

fn soon() -> Timestamp {
    Timestamp { secs: 1_010, nanos: 0 }
}

fn late() -> Timestamp {
    Timestamp { secs: 1_300, nanos: 1 }
}

struct Token {
    device: PKey<Private>,
    attestation: PKey<Private>,
    certificate: Vec<u8>,
    key_handle: Vec<u8>,
}

fn token() -> Token {
    let attestation = new_key(Nid::X9_62_PRIME256V1);
    let certificate = certificate(&attestation, &attestation);
    Token {
        device: new_key(Nid::X9_62_PRIME256V1),
        attestation,
        certificate,
        key_handle: (100u8..116).collect(),
    }
}

fn registration_response(token: &Token, challenge: &Challenge) -> Vec<u8> {
    let public_key = point_of(&token.device);
    let message =
        build_registration_message(APP_ID.as_bytes(), &challenge.bytes, &token.key_handle, &public_key);
    let mut data = vec![0x05u8];
    data.extend_from_slice(&public_key);
    data.push(token.key_handle.len() as u8);
    data.extend_from_slice(&token.key_handle);
    data.extend_from_slice(&token.certificate);
    data.extend_from_slice(&sign(&token.attestation, &message));
    data
}

fn sign_response(token: &Token, challenge: &Challenge, flag: u8, counter: u32) -> Vec<u8> {
    let counter_bytes = counter.to_be_bytes();
    let message =
        build_authentication_message(APP_ID.as_bytes(), flag, &counter_bytes, &challenge.bytes);
    let mut data = vec![flag];
    data.extend_from_slice(&counter_bytes);
    data.extend_from_slice(&sign(&token.device, &message));
    data
}

fn register(token: &Token) -> Registration {
    let challenge = challenge();
    let data = registration_response(token, &challenge);
    verify_registration(&data, APP_ID, &challenge, soon(), TTL, &TrustPolicy::Skip).unwrap()
}

fn kind<T: std::fmt::Debug>(r: Result<T, U2fError>) -> ErrorKind {
    r.unwrap_err().kind()
}

#[test]
fn issued_challenges_are_fresh() {
    let at = Timestamp { secs: 42, nanos: 7 };
    let first = Challenge::issue(16, at).unwrap();
    let second = Challenge::issue(16, at).unwrap();
    assert_eq!(first.bytes.len(), 16);
    assert_eq!(first.issued_at, at);
    assert_ne!(first.bytes, second.bytes);
    assert_eq!(Challenge::issue(64, at).unwrap().bytes.len(), 64);
    assert_eq!(kind(Challenge::issue(MAX_CHALLENGE_SIZE + 1, at)), ErrorKind::RandomSecureBytesError);
}

#[test]
fn registration_message_has_the_fixed_order() {
    let message = build_registration_message(b"", b"abc", &[9, 8], &[4, 1, 2]);
    assert_eq!(message.len(), 1 + 32 + 32 + 2 + 3);
    assert_eq!(message[0], 0);
    assert_eq!(
        message[1..33],
        [
            0xe3, 0xb0, 0xc4, 0x42, 0x98, 0xfc, 0x1c, 0x14, 0x9a, 0xfb, 0xf4, 0xc8, 0x99, 0x6f,
            0xb9, 0x24, 0x27, 0xae, 0x41, 0xe4, 0x64, 0x9b, 0x93, 0x4c, 0xa4, 0x95, 0x99, 0x1b,
            0x78, 0x52, 0xb8, 0x55
        ]
    );
    assert_eq!(
        message[33..65],
        [
            0xba, 0x78, 0x16, 0xbf, 0x8f, 0x01, 0xcf, 0xea, 0x41, 0x41, 0x40, 0xde, 0x5d, 0xae,
            0x22, 0x23, 0xb0, 0x03, 0x61, 0xa3, 0x96, 0x17, 0x7a, 0x9c, 0xb4, 0x10, 0xff, 0x61,
            0xf2, 0x00, 0x15, 0xad
        ]
    );
    assert_eq!(message[65..], [9, 8, 4, 1, 2]);
}

#[test]
fn authentication_message_has_the_fixed_order() {
    let message = build_authentication_message(b"abc", 0x01, &[0, 0, 1, 2], b"");
    assert_eq!(message.len(), 32 + 1 + 4 + 32);
    assert_eq!(message[0..4], [0xba, 0x78, 0x16, 0xbf]);
    assert_eq!(message[32..37], [0x01, 0, 0, 1, 2]);
    assert_eq!(message[37..41], [0xe3, 0xb0, 0xc4, 0x42]);
}

#[test]
fn read_counter_is_big_endian() {
    assert_eq!(read_counter(&[0, 0, 0, 1]), 1);
    assert_eq!(read_counter(&[0x01, 0x02, 0x03, 0x04]), 0x01020304);
    assert_eq!(read_counter(&[0xff, 0xff, 0xff, 0xff]), u32::MAX);
    assert_eq!(read_counter(&[0, 0, 0, 0]), 0);
}

#[test]
fn verify_signature_accepts_only_the_signed_message() {
    let key = new_key(Nid::X9_62_PRIME256V1);
    let point = point_of(&key);
    let signature = sign(&key, b"message");
    assert!(verify_signature(&point, b"message", &signature).is_ok());
    assert_eq!(kind(verify_signature(&point, b"massage", &signature)), ErrorKind::BadSignature);
    let other = point_of(&new_key(Nid::X9_62_PRIME256V1));
    assert_eq!(kind(verify_signature(&other, b"message", &signature)), ErrorKind::BadSignature);
}

#[test]
fn verify_signature_rejects_malformed_signatures() {
    let key = new_key(Nid::X9_62_PRIME256V1);
    let point = point_of(&key);
    let signature = sign(&key, b"message");
    assert_eq!(kind(verify_signature(&point, b"message", &[])), ErrorKind::BadSignature);
    assert_eq!(kind(verify_signature(&point, b"message", &[1, 2, 3])), ErrorKind::BadSignature);
    let mut trailing = signature.clone();
    trailing.push(0);
    assert_eq!(kind(verify_signature(&point, b"message", &trailing)), ErrorKind::BadSignature);
    let cut = &signature[..signature.len() - 1];
    assert_eq!(kind(verify_signature(&point, b"message", cut)), ErrorKind::BadSignature);
}

#[test]
fn verify_signature_rejects_bad_keys() {
    let key = new_key(Nid::X9_62_PRIME256V1);
    let point = point_of(&key);
    let signature = sign(&key, b"message");
    assert_eq!(kind(verify_signature(&[], b"message", &signature)), ErrorKind::InvalidPublicKey);
    assert_eq!(
        kind(verify_signature(&point[..64], b"message", &signature)),
        ErrorKind::InvalidPublicKey
    );
    let ec = key.ec_key().unwrap();
    let mut ctx = BigNumContext::new().unwrap();
    let compressed =
        ec.public_key().to_bytes(ec.group(), PointConversionForm::COMPRESSED, &mut ctx).unwrap();
    assert_eq!(
        kind(verify_signature(&compressed, b"message", &signature)),
        ErrorKind::InvalidPublicKey
    );
    let mut off_curve = point.clone();
    off_curve[64] ^= 0x01;
    assert_eq!(
        kind(verify_signature(&off_curve, b"message", &signature)),
        ErrorKind::InvalidPublicKey
    );
    let mut marker = point.clone();
    marker[0] = 0x05;
    assert_eq!(
        kind(verify_signature(&marker, b"message", &signature)),
        ErrorKind::InvalidPublicKey
    );
}

#[test]
fn certificate_validation_follows_the_policy() {
    let root = new_key(Nid::X9_62_PRIME256V1);
    let root_certificate = certificate(&root, &root);
    let leaf = new_key(Nid::X9_62_PRIME256V1);
    let leaf_certificate = certificate(&leaf, &root);
    let stranger = new_key(Nid::X9_62_PRIME256V1);
    let stranger_certificate = certificate(&stranger, &stranger);

    let key = validate_certificate(&leaf_certificate, &TrustPolicy::Skip).unwrap();
    assert_eq!(key, point_of(&leaf));
    let enforce = TrustPolicy::Enforce(vec![stranger_certificate.clone(), root_certificate.clone()]);
    assert_eq!(validate_certificate(&leaf_certificate, &enforce).unwrap(), point_of(&leaf));
    let wrong = TrustPolicy::Enforce(vec![stranger_certificate.clone(), vec![1, 2, 3]]);
    assert_eq!(kind(validate_certificate(&leaf_certificate, &wrong)), ErrorKind::NotTrustedAnchor);
    let empty = TrustPolicy::Enforce(vec![]);
    assert_eq!(kind(validate_certificate(&leaf_certificate, &empty)), ErrorKind::NotTrustedAnchor);
    assert!(signed_by_anchor(&leaf_certificate, &vec![root_certificate.clone()]));
    assert!(!signed_by_anchor(&leaf_certificate, &vec![stranger_certificate]));
    assert!(!signed_by_anchor(&leaf_certificate, &vec![]));
}

#[test]
fn certificate_validation_rejects_what_is_no_p256_certificate() {
    assert_eq!(kind(validate_certificate(&[], &TrustPolicy::Skip)), ErrorKind::BadCertificate);
    assert_eq!(
        kind(validate_certificate(&[0x30, 0x03, 1, 2, 3], &TrustPolicy::Skip)),
        ErrorKind::BadCertificate
    );
    let other_curve = new_key(Nid::SECP384R1);
    let der = certificate(&other_curve, &other_curve);
    assert_eq!(kind(validate_certificate(&der, &TrustPolicy::Skip)), ErrorKind::BadCertificate);
}

#[test]
fn certificate_on_a_curve_without_a_name_is_reported() {
    let named = EcGroup::from_curve_name(Nid::X9_62_PRIME256V1).unwrap();
    let mut ctx = BigNumContext::new().unwrap();
    let mut p = BigNum::new().unwrap();
    let mut a = BigNum::new().unwrap();
    let mut b = BigNum::new().unwrap();
    named.components_gfp(&mut p, &mut a, &mut b, &mut ctx).unwrap();
    let mut order = BigNum::new().unwrap();
    named.order(&mut order, &mut ctx).unwrap();
    let mut cofactor = BigNum::new().unwrap();
    named.cofactor(&mut cofactor, &mut ctx).unwrap();
    let mut doubled = EcPoint::new(&named).unwrap();
    doubled.mul_generator2(&named, &BigNum::from_u32(2).unwrap(), &mut ctx).unwrap();
    let doubled =
        doubled.to_bytes(&named, PointConversionForm::UNCOMPRESSED, &mut ctx).unwrap();
    let mut group = EcGroup::from_components(p, a, b, &mut ctx).unwrap();
    let generator = EcPoint::from_bytes(&group, &doubled, &mut ctx).unwrap();
    group.set_generator(generator, order, cofactor).unwrap();
    group.set_asn1_flag(Asn1Flag::EXPLICIT_CURVE);
    let subject = PKey::from_ec_key(EcKey::generate(&group).unwrap()).unwrap();
    let issuer = new_key(Nid::X9_62_PRIME256V1);
    let der = certificate(&subject, &issuer);
    assert_eq!(kind(validate_certificate(&der, &TrustPolicy::Skip)), ErrorKind::OpenSSLNoCurveName);
}

#[test]
fn split_registration_cuts_the_fields() {
    let token = token();
    let challenge = challenge();
    let data = registration_response(&token, &challenge);
    let parts = split_registration(&data).unwrap();
    assert_eq!(parts.public_key, point_of(&token.device));
    assert_eq!(parts.key_handle, token.key_handle);
    assert_eq!(parts.certificate, token.certificate);
    let start = 67 + token.key_handle.len() + token.certificate.len();
    assert_eq!(parts.signature, data[start..].to_vec());
}

#[test]
fn split_registration_rejects_truncated_input() {
    let token = token();
    let data = registration_response(&token, &challenge());
    assert_eq!(kind(split_registration(&[])), ErrorKind::InvalidClientData);
    assert_eq!(kind(split_registration(&data[..1])), ErrorKind::InvalidClientData);
    assert_eq!(kind(split_registration(&data[..66])), ErrorKind::InvalidClientData);
    assert_eq!(kind(split_registration(&data[..67])), ErrorKind::InvalidClientData);
    assert_eq!(kind(split_registration(&data[..70])), ErrorKind::InvalidClientData);
    let handle_end = 67 + token.key_handle.len();
    assert_eq!(kind(split_registration(&data[..handle_end])), ErrorKind::Asm1DecoderError);
    assert_eq!(kind(split_registration(&data[..handle_end + 3])), ErrorKind::Asm1DecoderError);
    assert_eq!(kind(split_registration(&data[..handle_end + 40])), ErrorKind::Asm1DecoderError);
    let whole = handle_end + token.certificate.len();
    assert!(split_registration(&data[..whole]).unwrap().signature.is_empty());
    let mut compressed = data.clone();
    compressed[1] = 0x02;
    assert_eq!(kind(split_registration(&compressed)), ErrorKind::InvalidPublicKey);
}

#[test]
fn registration_succeeds_for_a_signed_response() {
    let token = token();
    let challenge = challenge();
    let data = registration_response(&token, &challenge);
    let registration =
        verify_registration(&data, APP_ID, &challenge, soon(), TTL, &TrustPolicy::Skip).unwrap();
    assert_eq!(registration.key_handle, token.key_handle);
    assert_eq!(registration.public_key, point_of(&token.device));
    assert_eq!(registration.attestation_certificate, token.certificate);
    assert_eq!(registration.counter, 0);
    assert!(!registration.authenticated);
    let trusted = TrustPolicy::Enforce(vec![token.certificate.clone()]);
    assert!(verify_registration(&data, APP_ID, &challenge, soon(), TTL, &trusted).is_ok());
    let untrusted = TrustPolicy::Enforce(vec![]);
    assert_eq!(
        kind(verify_registration(&data, APP_ID, &challenge, soon(), TTL, &untrusted)),
        ErrorKind::NotTrustedAnchor
    );
}

#[test]
fn registration_with_wrong_reserved_byte_fails() {
    let token = token();
    let challenge = challenge();
    let mut data = registration_response(&token, &challenge);
    for reserved in [0x00u8, 0x04, 0x06, 0xff] {
        data[0] = reserved;
        assert_eq!(
            kind(verify_registration(&data, APP_ID, &challenge, soon(), TTL, &TrustPolicy::Skip)),
            ErrorKind::InvalidReservedByte
        );
        assert_eq!(
            kind(verify_registration(&data, APP_ID, &challenge, late(), TTL, &TrustPolicy::Skip)),
            ErrorKind::InvalidReservedByte
        );
    }
    assert_eq!(
        kind(verify_registration(&[0x04], APP_ID, &challenge, soon(), TTL, &TrustPolicy::Skip)),
        ErrorKind::InvalidReservedByte
    );
    assert_eq!(
        kind(verify_registration(&[], APP_ID, &challenge, soon(), TTL, &TrustPolicy::Skip)),
        ErrorKind::InvalidClientData
    );
}

#[test]
fn registration_after_the_ttl_fails() {
    let token = token();
    let challenge = challenge();
    let data = registration_response(&token, &challenge);
    assert_eq!(
        kind(verify_registration(&data, APP_ID, &challenge, late(), TTL, &TrustPolicy::Skip)),
        ErrorKind::ChallengeExpired
    );
}

#[test]
fn registration_for_another_app_or_challenge_fails() {
    let token = token();
    let challenge = challenge();
    let data = registration_response(&token, &challenge);
    assert_eq!(
        kind(verify_registration(&data, "https://evil.org", &challenge, soon(), TTL, &TrustPolicy::Skip)),
        ErrorKind::BadSignature
    );
    let mut other = challenge.clone();
    other.bytes[0] ^= 1;
    assert_eq!(
        kind(verify_registration(&data, APP_ID, &other, soon(), TTL, &TrustPolicy::Skip)),
        ErrorKind::BadSignature
    );
}

#[test]
fn registration_rejects_every_single_byte_change() {
    let token = token();
    let challenge = challenge();
    let data = registration_response(&token, &challenge);
    let policy = TrustPolicy::Enforce(vec![token.certificate.clone()]);
    assert!(verify_registration(&data, APP_ID, &challenge, soon(), TTL, &policy).is_ok());
    let handle_end = 67 + token.key_handle.len();
    let certificate_end = handle_end + token.certificate.len();
    for i in 0..data.len() {
        for mask in [0x01u8, 0x80] {
            let mut changed = data.clone();
            changed[i] ^= mask;
            let r = verify_registration(&changed, APP_ID, &challenge, soon(), TTL, &policy);
            assert!(r.is_err());
            let signed = (2..66).contains(&i) || (67..handle_end).contains(&i);
            if signed || i >= certificate_end {
                assert_eq!(kind(r), ErrorKind::BadSignature);
            }
        }
    }
}

#[test]
fn authentication_round_trip_and_replay() {
    let token = token();
    let mut registration = register(&token);
    let challenge = challenge();
    let data = sign_response(&token, &challenge, 0x01, 1);
    let counter = verify_authentication(
        &data,
        &token.key_handle,
        APP_ID,
        &challenge,
        &registration,
        soon(),
        TTL,
    )
    .unwrap();
    assert_eq!(counter, 1);
    registration.record_counter(counter).unwrap();
    assert_eq!(registration.counter, 1);
    assert!(registration.authenticated);
    assert_eq!(registration.key_handle, token.key_handle);
    assert_eq!(registration.public_key, point_of(&token.device));
    let replay = verify_authentication(
        &data,
        &token.key_handle,
        APP_ID,
        &challenge,
        &registration,
        soon(),
        TTL,
    );
    assert_eq!(kind(replay), ErrorKind::CounterTooLow);
    let next = sign_response(&token, &challenge, 0x01, 2);
    let counter =
        verify_authentication(&next, &token.key_handle, APP_ID, &challenge, &registration, soon(), TTL)
            .unwrap();
    assert_eq!(counter, 2);
}

#[test]
fn first_authentication_accepts_counter_zero() {
    let token = token();
    let mut registration = register(&token);
    let challenge = challenge();
    let data = sign_response(&token, &challenge, 0x01, 0);
    let counter =
        verify_authentication(&data, &token.key_handle, APP_ID, &challenge, &registration, soon(), TTL)
            .unwrap();
    assert_eq!(counter, 0);
    registration.record_counter(counter).unwrap();
    assert_eq!(
        kind(verify_authentication(
            &data,
            &token.key_handle,
            APP_ID,
            &challenge,
            &registration,
            soon(),
            TTL
        )),
        ErrorKind::CounterTooLow
    );
}

#[test]
fn record_counter_only_moves_upward() {
    let token = token();
    let mut registration = register(&token);
    registration.record_counter(5).unwrap();
    assert_eq!(kind(registration.record_counter(5)), ErrorKind::CounterTooLow);
    assert_eq!(kind(registration.record_counter(4)), ErrorKind::CounterTooLow);
    assert_eq!(registration.counter, 5);
    registration.record_counter(6).unwrap();
    assert_eq!(registration.counter, 6);
    registration.record_counter(u32::MAX).unwrap();
    assert_eq!(kind(registration.record_counter(u32::MAX)), ErrorKind::CounterTooLow);
    assert_eq!(registration.counter, u32::MAX);
}

#[test]
fn authentication_after_the_ttl_fails() {
    let token = token();
    let registration = register(&token);
    let challenge = challenge();
    let data = sign_response(&token, &challenge, 0x01, 1);
    let r = verify_authentication(
        &data,
        &token.key_handle,
        APP_ID,
        &challenge,
        &registration,
        late(),
        TTL,
    );
    assert_eq!(kind(r), ErrorKind::ChallengeExpired);
    let edge = Timestamp { secs: 1_300, nanos: 0 };
    assert!(verify_authentication(
        &data,
        &token.key_handle,
        APP_ID,
        &challenge,
        &registration,
        edge,
        TTL
    )
    .is_ok());
}

#[test]
fn authentication_checks_handle_length_and_presence() {
    let token = token();
    let registration = register(&token);
    let challenge = challenge();
    let data = sign_response(&token, &challenge, 0x01, 1);
    let wrong_handle = vec![1u8, 2, 3];
    assert_eq!(
        kind(verify_authentication(&data, &wrong_handle, APP_ID, &challenge, &registration, soon(), TTL)),
        ErrorKind::WrongKeyHandler
    );
    for n in 0..6 {
        assert_eq!(
            kind(verify_authentication(
                &data[..n],
                &token.key_handle,
                APP_ID,
                &challenge,
                &registration,
                soon(),
                TTL
            )),
            ErrorKind::InvalidSignatureData
        );
    }
    let absent = sign_response(&token, &challenge, 0x00, 1);
    assert_eq!(
        kind(verify_authentication(
            &absent,
            &token.key_handle,
            APP_ID,
            &challenge,
            &registration,
            soon(),
            TTL
        )),
        ErrorKind::InvalidUserPresenceByte
    );
    let flagged = sign_response(&token, &challenge, 0x03, 1);
    assert!(verify_authentication(
        &flagged,
        &token.key_handle,
        APP_ID,
        &challenge,
        &registration,
        soon(),
        TTL
    )
    .is_ok());
}

#[test]
fn authentication_with_a_corrupt_stored_key_fails() {
    let token = token();
    let mut registration = register(&token);
    let challenge = challenge();
    let data = sign_response(&token, &challenge, 0x01, 1);
    registration.public_key[40] ^= 0x10;
    assert_eq!(
        kind(verify_authentication(
            &data,
            &token.key_handle,
            APP_ID,
            &challenge,
            &registration,
            soon(),
            TTL
        )),
        ErrorKind::InvalidPublicKey
    );
}

#[test]
fn authentication_rejects_every_single_byte_change() {
    let token = token();
    let registration = register(&token);
    let challenge = challenge();
    let data = sign_response(&token, &challenge, 0x01, 1);
    for i in 0..data.len() {
        for mask in [0x01u8, 0x02, 0x80] {
            let mut changed = data.clone();
            changed[i] ^= mask;
            let r = verify_authentication(
                &changed,
                &token.key_handle,
                APP_ID,
                &challenge,
                &registration,
                soon(),
                TTL,
            );
            if i == 0 && mask == 0x01 {
                assert_eq!(kind(r), ErrorKind::InvalidUserPresenceByte);
            } else {
                assert_eq!(kind(r), ErrorKind::BadSignature);
            }
        }
    }
}
