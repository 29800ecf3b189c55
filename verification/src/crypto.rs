//! Hashing, signature verification over the fixed curve P-256, and attestation
//! certificate trust. The cryptography itself is OpenSSL's; what is decided from
//! its answers is decided here.

use crate::u2ferror::{kind_of, ErrorKind, U2fError};
use crate::util::same_bytes;
use openssl::error::ErrorStack;
use vstd::prelude::*;

verus! {

/// Length of an uncompressed P-256 point: the marker and two coordinates.
pub const PUBLIC_KEY_SIZE: usize = 65;

/// The first byte of an uncompressed point.
pub const UNCOMPRESSED_MARKER: u8 = 0x04;

/// OpenSSL's number for the curve P-256 (`X9_62_PRIME256V1`).
pub const P256_CURVE_ID: i32 = 415;

/// The SHA-256 digest of `data`.
pub uninterp spec fn sha256_digest(data: Seq<u8>) -> Seq<u8>;

/// Whether OpenSSL takes `key` for a point on P-256 that is fit to be a public key.
pub uninterp spec fn p256_point_decodes(key: Seq<u8>) -> bool;

/// The DER encoding of the ECDSA signature that OpenSSL reads from
/// `signature`; `None` where it reads none.
pub uninterp spec fn ecdsa_reencoded(signature: Seq<u8>) -> Option<Seq<u8>>;

/// Whether `signature` is the DER encoding of an ECDSA signature, with nothing
/// before or after it: the bytes that OpenSSL writes for what it read are the
/// bytes themselves.
pub open spec fn ecdsa_signature_parses(signature: Seq<u8>) -> bool {
    ecdsa_reencoded(signature) == Some(signature)
}

/// Whether `signature` is a valid ECDSA signature of SHA-256(`message`) under
/// the P-256 public key `key`; `None` where OpenSSL reports a fault instead of
/// an answer.
pub uninterp spec fn p256_signature_check(
    key: Seq<u8>,
    message: Seq<u8>,
    signature: Seq<u8>,
) -> Option<bool>;

/// The curve of the elliptic-curve key in certificate `der`, by OpenSSL's
/// number: `None` where `der` is no X.509 certificate with such a key,
/// `Some(None)` where the key's curve has no name.
pub uninterp spec fn certificate_curve(der: Seq<u8>) -> Option<Option<i32>>;

/// The public key of certificate `der` as an uncompressed point; `None` where
/// there is no such certificate or key.
pub uninterp spec fn certificate_key(der: Seq<u8>) -> Option<Seq<u8>>;

/// Whether certificate `der` carries a signature made with the key of
/// certificate `anchor`; `None` where either does not parse or OpenSSL reports a
/// fault.
pub uninterp spec fn certificate_signed_by(der: Seq<u8>, anchor: Seq<u8>) -> Option<bool>;

/// `openssl::sha::sha256`: the digest depends on the data alone and has 32 bytes.
#[verifier::external_body]
pub(crate) fn sha256(data: &[u8]) -> (digest: Vec<u8>)
    ensures
        digest@ == sha256_digest(data@),
        digest@.len() == 32,
{
    openssl::sha::sha256(data).to_vec()
}

/// `EcPoint::from_bytes` on the group of `EcGroup::from_curve_name` for P-256,
/// then `EcKey::from_public_key` and `EcKey::check_key`: succeeds exactly for
/// the byte strings that OpenSSL accepts as a public key on that curve.
#[verifier::external_body]
fn p256_point_check(key: &[u8]) -> (r: Result<(), ErrorStack>)
    ensures
        r is Ok <==> p256_point_decodes(key@),
{
    let group = openssl::ec::EcGroup::from_curve_name(openssl::nid::Nid::X9_62_PRIME256V1)?;
    let mut ctx = openssl::bn::BigNumContext::new()?;
    let point = openssl::ec::EcPoint::from_bytes(&group, key, &mut ctx)?;
    openssl::ec::EcKey::from_public_key(&group, &point)?.check_key()
}

/// `EcdsaSig::from_der` followed by `EcdsaSigRef::to_der`: what OpenSSL reads
/// from the bytes, written out again. Both depend on the bytes alone.
#[verifier::external_body]
fn ecdsa_reencode(signature: &[u8]) -> (r: Result<Vec<u8>, ErrorStack>)
    ensures
        match r {
            Ok(der) => ecdsa_reencoded(signature@) == Some(der@),
            Err(_) => ecdsa_reencoded(signature@) is None,
        },
{
    openssl::ecdsa::EcdsaSig::from_der(signature)?.to_der()
}

/// `Verifier::new` with `MessageDigest::sha256` on the P-256 key built from
/// `key`, then `Verifier::update` with the message and `Verifier::verify` with
/// the signature: the answer, or the fault, depends on the three byte strings
/// alone.
#[verifier::external_body]
fn p256_verify(key: &[u8], message: &[u8], signature: &[u8]) -> (r: Result<bool, ErrorStack>)
    ensures
        match r {
            Ok(valid) => p256_signature_check(key@, message@, signature@) == Some(valid),
            Err(_) => p256_signature_check(key@, message@, signature@) is None,
        },
{
    let group = openssl::ec::EcGroup::from_curve_name(openssl::nid::Nid::X9_62_PRIME256V1)?;
    let mut ctx = openssl::bn::BigNumContext::new()?;
    let point = openssl::ec::EcPoint::from_bytes(&group, key, &mut ctx)?;
    let ec_key = openssl::ec::EcKey::from_public_key(&group, &point)?;
    let pkey = openssl::pkey::PKey::from_ec_key(ec_key)?;
    let mut verifier = openssl::sign::Verifier::new(openssl::hash::MessageDigest::sha256(), &pkey)?;
    verifier.update(message)?;
    verifier.verify(signature)
}

/// `X509::from_der`, `X509Ref::public_key`, `PKey::ec_key`, then
/// `EcGroupRef::curve_name` read out with `Nid::as_raw`.
#[verifier::external_body]
fn certificate_curve_id(der: &[u8]) -> (r: Result<Option<i32>, ErrorStack>)
    ensures
        match r {
            Ok(id) => certificate_curve(der@) == Some(id),
            Err(_) => certificate_curve(der@) is None,
        },
{
    let key = openssl::x509::X509::from_der(der)?.public_key()?.ec_key()?;
    match key.group().curve_name() {
        Some(nid) => Ok(Some(nid.as_raw())),
        None => Ok(None),
    }
}

/// `X509::from_der`, `X509Ref::public_key`, `PKey::ec_key`, then
/// `EcPointRef::to_bytes` in uncompressed form.
#[verifier::external_body]
fn certificate_point(der: &[u8]) -> (r: Result<Vec<u8>, ErrorStack>)
    ensures
        match r {
            Ok(key) => certificate_key(der@) == Some(key@),
            Err(_) => certificate_key(der@) is None,
        },
{
    let key = openssl::x509::X509::from_der(der)?.public_key()?.ec_key()?;
    let mut ctx = openssl::bn::BigNumContext::new()?;
    let form = openssl::ec::PointConversionForm::UNCOMPRESSED;
    key.public_key().to_bytes(key.group(), form, &mut ctx)
}

/// `X509Ref::verify` of the certificate `der` against the public key of the
/// certificate `anchor`: a direct signature check, no path building.
#[verifier::external_body]
fn certificate_signature_check(der: &[u8], anchor: &[u8]) -> (r: Result<bool, ErrorStack>)
    ensures
        match r {
            Ok(signed) => certificate_signed_by(der@, anchor@) == Some(signed),
            Err(_) => certificate_signed_by(der@, anchor@) is None,
        },
{
    let issuer = openssl::x509::X509::from_der(anchor)?.public_key()?;
    openssl::x509::X509::from_der(der)?.verify(&issuer)
}

/// The result of a verification as callers see it: the value, or the kind of
/// the failure.
pub open spec fn outcome<T>(r: Result<T, U2fError>) -> Result<T, ErrorKind> {
    match r {
        Ok(v) => Ok(v),
        Err(e) => Err(kind_of(e)),
    }
}

/// Whether `key` has the form of an uncompressed P-256 point.
pub open spec fn uncompressed_form(key: Seq<u8>) -> bool {
    key.len() == PUBLIC_KEY_SIZE && key[0] == UNCOMPRESSED_MARKER
}

/// What the signature verifier answers for a key, a message and a signature.
///
/// A key that is not an uncompressed point on the curve is `InvalidPublicKey`.
/// A signature that is no DER-encoded ECDSA signature, or that does not match,
/// is `BadSignature`. A fault of the library during the check is `OpenSSLError`.
pub open spec fn signature_verdict(key: Seq<u8>, message: Seq<u8>, signature: Seq<u8>) -> Result<
    (),
    ErrorKind,
> {
    if !uncompressed_form(key) || !p256_point_decodes(key) {
        Err(ErrorKind::InvalidPublicKey)
    } else if !ecdsa_signature_parses(signature) {
        Err(ErrorKind::BadSignature)
    } else {
        check_verdict(p256_signature_check(key, message, signature))
    }
}

/// What one answer of the signature check means.
pub open spec fn check_verdict(check: Option<bool>) -> Result<(), ErrorKind> {
    match check {
        Some(true) => Ok(()),
        Some(false) => Err(ErrorKind::BadSignature),
        None => Err(ErrorKind::OpenSSLError),
    }
}

/// Turns the answer of a signature check into the verifier's result: success
/// for a match, `BadSignature` for a mismatch, the wrapped fault otherwise.
pub fn verdict_of_check(check: Result<bool, ErrorStack>) -> (r: Result<(), U2fError>)
    ensures
        outcome(r) == check_verdict(
            match check {
                Ok(valid) => Some(valid),
                Err(_) => None,
            },
        ),
        check matches Err(stack) ==> (r matches Err(U2fError::OpenSSLError(s)) && s == stack),
{
    match check {
        Ok(true) => Ok(()),
        Ok(false) => Err(U2fError::BadSignature),
        Err(stack) => Err(U2fError::OpenSSLError(stack)),
    }
}

/// Verifies an ECDSA signature over P-256 of SHA-256(`message`) with the
/// uncompressed public key `public_key`. The curve is fixed: nothing in the
/// inputs selects it.
pub fn verify_signature(public_key: &[u8], message: &[u8], signature: &[u8]) -> (r: Result<
    (),
    U2fError,
>)
    ensures
        outcome(r) == signature_verdict(public_key@, message@, signature@),
{
    if public_key.len() != PUBLIC_KEY_SIZE || public_key[0] != UNCOMPRESSED_MARKER {
        return Err(U2fError::InvalidPublicKey);
    }
    match p256_point_check(public_key) {
        Ok(_) => {},
        Err(_) => {
            return Err(U2fError::InvalidPublicKey);
        },
    }
    match ecdsa_reencode(signature) {
        Ok(der) => {
            if !same_bytes(der.as_slice(), signature) {
                return Err(U2fError::BadSignature);
            }
        },
        Err(_) => {
            return Err(U2fError::BadSignature);
        },
    }
    verdict_of_check(p256_verify(public_key, message, signature))
}

/// Whether attestation certificates must be signed by a configured root.
#[derive(Clone, Debug)]
pub enum TrustPolicy {
    /// Accept only certificates signed by one of these roots, each in DER.
    Enforce(Vec<Vec<u8>>),
    /// Accept any certificate that parses: self-attestation, development.
    Skip,
}

/// The roots of a policy as plain byte strings.
pub open spec fn anchors_of(anchors: Seq<Vec<u8>>) -> Seq<Seq<u8>> {
    anchors.map_values(|a: Vec<u8>| a@)
}

/// Whether one of `anchors` signed the certificate `der`.
pub open spec fn trusted_by(der: Seq<u8>, anchors: Seq<Seq<u8>>) -> bool {
    exists|i: int| 0 <= i < anchors.len() && certificate_signed_by(der, #[trigger] anchors[i]) == Some(true)
}

/// Whether the policy lets the certificate `der` pass.
pub open spec fn policy_accepts(der: Seq<u8>, policy: TrustPolicy) -> bool {
    match policy {
        TrustPolicy::Skip => true,
        TrustPolicy::Enforce(anchors) => trusted_by(der, anchors_of(anchors@)),
    }
}

/// What the certificate validator answers.
///
/// Bytes that are no certificate with an elliptic-curve key, or whose key lies
/// on another curve than P-256, are `BadCertificate`; a key on a curve without a
/// name is `OpenSSLNoCurveName`. Under `Enforce`, a certificate that none of the
/// roots signed is `NotTrustedAnchor`; that includes every certificate where no
/// root is configured. Otherwise the answer is the certificate's public key.
pub open spec fn certificate_verdict(der: Seq<u8>, policy: TrustPolicy) -> Result<
    Seq<u8>,
    ErrorKind,
> {
    match certificate_curve(der) {
        None => Err(ErrorKind::BadCertificate),
        Some(None) => Err(ErrorKind::OpenSSLNoCurveName),
        Some(Some(id)) => if id != P256_CURVE_ID {
            Err(ErrorKind::BadCertificate)
        } else {
            match certificate_key(der) {
                None => Err(ErrorKind::BadCertificate),
                Some(key) => if policy_accepts(der, policy) {
                    Ok(key)
                } else {
                    Err(ErrorKind::NotTrustedAnchor)
                },
            }
        },
    }
}

/// Whether one of the roots signed the certificate.
pub fn signed_by_anchor(der: &[u8], anchors: &Vec<Vec<u8>>) -> (found: bool)
    ensures
        found == trusted_by(der@, anchors_of(anchors@)),
{
    let mut i: usize = 0;
    while i < anchors.len()
        invariant
            i <= anchors@.len(),
            forall|j: int|
                0 <= j < i ==> certificate_signed_by(der@, #[trigger] anchors_of(anchors@)[j])
                    != Some(true),
        decreases anchors@.len() - i,
    {
        match certificate_signature_check(der, anchors[i].as_slice()) {
            Ok(true) => {
                assert(anchors_of(anchors@)[i as int] == anchors@[i as int]@);
                return true;
            },
            _ => {
                assert(anchors_of(anchors@)[i as int] == anchors@[i as int]@);
            },
        }
        i = i + 1;
    }
    false
}

/// Parses `der` as an X.509 attestation certificate, applies the trust policy
/// and returns the certificate's public key as an uncompressed point.
pub fn validate_certificate(der: &[u8], policy: &TrustPolicy) -> (r: Result<Vec<u8>, U2fError>)
    ensures
        match certificate_verdict(der@, *policy) {
            Ok(key) => r matches Ok(found) && found@ == key,
            Err(kind) => r matches Err(e) && kind_of(e) == kind,
        },
{
    match certificate_curve_id(der) {
        Err(_) => {
            return Err(U2fError::BadCertificate);
        },
        Ok(None) => {
            return Err(U2fError::OpenSSLNoCurveName);
        },
        Ok(Some(id)) => {
            if id != P256_CURVE_ID {
                return Err(U2fError::BadCertificate);
            }
        },
    }
    let key = match certificate_point(der) {
        Ok(key) => key,
        Err(_) => {
            return Err(U2fError::BadCertificate);
        },
    };
    let accepted = match policy {
        TrustPolicy::Skip => true,
        TrustPolicy::Enforce(anchors) => signed_by_anchor(der, anchors),
    };
    if accepted {
        Ok(key)
    } else {
        Err(U2fError::NotTrustedAnchor)
    }
}

} // verus!
