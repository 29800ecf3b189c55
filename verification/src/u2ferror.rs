//! The closed set of failures that verification can report.

use vstd::prelude::*;

verus! {

/// The error stack of the cryptography library, carried through opaquely.
#[verifier::external_type_specification]
#[verifier::external_body]
pub struct ExErrorStack(openssl::error::ErrorStack);

/// An error for a U2F system.
#[derive(Debug)]
pub enum U2fError {
    Asm1DecoderError,
    BadSignature,
    RandomSecureBytesError,
    InvalidReservedByte,
    ChallengeExpired,
    WrongKeyHandler,
    InvalidClientData,
    InvalidSignatureData,
    InvalidUserPresenceByte,
    BadCertificate,
    NotTrustedAnchor,
    CounterTooLow,
    InvalidPublicKey,
    OpenSSLNoCurveName,
    OpenSSLError(openssl::error::ErrorStack),
}

/// The kind of an error, without what a library fault carries. Two errors of one
/// kind are the same failure to a caller.
#[derive(Clone, Copy, Debug, PartialEq, Eq, Structural)]
pub enum ErrorKind {
    Asm1DecoderError,
    BadSignature,
    RandomSecureBytesError,
    InvalidReservedByte,
    ChallengeExpired,
    WrongKeyHandler,
    InvalidClientData,
    InvalidSignatureData,
    InvalidUserPresenceByte,
    BadCertificate,
    NotTrustedAnchor,
    CounterTooLow,
    InvalidPublicKey,
    OpenSSLNoCurveName,
    OpenSSLError,
}

/// The kind of `e`.
pub open spec fn kind_of(e: U2fError) -> ErrorKind {
    match e {
        U2fError::Asm1DecoderError => ErrorKind::Asm1DecoderError,
        U2fError::BadSignature => ErrorKind::BadSignature,
        U2fError::RandomSecureBytesError => ErrorKind::RandomSecureBytesError,
        U2fError::InvalidReservedByte => ErrorKind::InvalidReservedByte,
        U2fError::ChallengeExpired => ErrorKind::ChallengeExpired,
        U2fError::WrongKeyHandler => ErrorKind::WrongKeyHandler,
        U2fError::InvalidClientData => ErrorKind::InvalidClientData,
        U2fError::InvalidSignatureData => ErrorKind::InvalidSignatureData,
        U2fError::InvalidUserPresenceByte => ErrorKind::InvalidUserPresenceByte,
        U2fError::BadCertificate => ErrorKind::BadCertificate,
        U2fError::NotTrustedAnchor => ErrorKind::NotTrustedAnchor,
        U2fError::CounterTooLow => ErrorKind::CounterTooLow,
        U2fError::InvalidPublicKey => ErrorKind::InvalidPublicKey,
        U2fError::OpenSSLNoCurveName => ErrorKind::OpenSSLNoCurveName,
        U2fError::OpenSSLError(_) => ErrorKind::OpenSSLError,
    }
}

/// The fixed text of each kind; a wrapped library fault has none of its own.
pub open spec fn kind_text(e: U2fError) -> Option<Seq<char>> {
    match e {
        U2fError::Asm1DecoderError => Some("ASM1 Decoder error"@),
        U2fError::BadSignature => Some("Not able to verify signature"@),
        U2fError::RandomSecureBytesError => Some("Not able to generate random bytes"@),
        U2fError::InvalidReservedByte => Some("Invalid Reserved Byte"@),
        U2fError::ChallengeExpired => Some("Challenge Expired"@),
        U2fError::WrongKeyHandler => Some("Wrong Key Handler"@),
        U2fError::InvalidClientData => Some("Invalid Client Data"@),
        U2fError::InvalidSignatureData => Some("Invalid Signature Data"@),
        U2fError::InvalidUserPresenceByte => Some("Invalid User Presence Byte"@),
        U2fError::BadCertificate => Some("Failed to parse certificate"@),
        U2fError::NotTrustedAnchor => Some("Not Trusted Anchor"@),
        U2fError::CounterTooLow => Some("Counter too low"@),
        U2fError::InvalidPublicKey => Some("Invalid public key"@),
        U2fError::OpenSSLNoCurveName => Some("OpenSSL no curve name"@),
        U2fError::OpenSSLError(_) => None,
    }
}

/// Renders the error stack with `ErrorStack`'s `Display` impl, which writes the
/// library's own description of each fault; nothing is claimed of the text.
#[verifier::external_body]
fn stack_text(stack: &openssl::error::ErrorStack) -> (text: String) {
    format!("{}", stack)
}

impl U2fError {
    /// The kind of this error.
    pub fn kind(&self) -> (k: ErrorKind)
        ensures
            k == kind_of(*self),
    {
        match self {
            U2fError::Asm1DecoderError => ErrorKind::Asm1DecoderError,
            U2fError::BadSignature => ErrorKind::BadSignature,
            U2fError::RandomSecureBytesError => ErrorKind::RandomSecureBytesError,
            U2fError::InvalidReservedByte => ErrorKind::InvalidReservedByte,
            U2fError::ChallengeExpired => ErrorKind::ChallengeExpired,
            U2fError::WrongKeyHandler => ErrorKind::WrongKeyHandler,
            U2fError::InvalidClientData => ErrorKind::InvalidClientData,
            U2fError::InvalidSignatureData => ErrorKind::InvalidSignatureData,
            U2fError::InvalidUserPresenceByte => ErrorKind::InvalidUserPresenceByte,
            U2fError::BadCertificate => ErrorKind::BadCertificate,
            U2fError::NotTrustedAnchor => ErrorKind::NotTrustedAnchor,
            U2fError::CounterTooLow => ErrorKind::CounterTooLow,
            U2fError::InvalidPublicKey => ErrorKind::InvalidPublicKey,
            U2fError::OpenSSLNoCurveName => ErrorKind::OpenSSLNoCurveName,
            U2fError::OpenSSLError(_) => ErrorKind::OpenSSLError,
        }
    }

    /// The message of this error: the fixed text of its kind, or for a wrapped
    /// library fault whatever the library says of it.
    pub fn message(&self) -> (text: String)
        ensures
            kind_text(*self) is Some ==> text@ == kind_text(*self)->Some_0,
    {
        match self {
            U2fError::Asm1DecoderError => "ASM1 Decoder error".to_owned(),
            U2fError::BadSignature => "Not able to verify signature".to_owned(),
            U2fError::RandomSecureBytesError => "Not able to generate random bytes".to_owned(),
            U2fError::InvalidReservedByte => "Invalid Reserved Byte".to_owned(),
            U2fError::ChallengeExpired => "Challenge Expired".to_owned(),
            U2fError::WrongKeyHandler => "Wrong Key Handler".to_owned(),
            U2fError::InvalidClientData => "Invalid Client Data".to_owned(),
            U2fError::InvalidSignatureData => "Invalid Signature Data".to_owned(),
            U2fError::InvalidUserPresenceByte => "Invalid User Presence Byte".to_owned(),
            U2fError::BadCertificate => "Failed to parse certificate".to_owned(),
            U2fError::NotTrustedAnchor => "Not Trusted Anchor".to_owned(),
            U2fError::CounterTooLow => "Counter too low".to_owned(),
            U2fError::InvalidPublicKey => "Invalid public key".to_owned(),
            U2fError::OpenSSLNoCurveName => "OpenSSL no curve name".to_owned(),
            U2fError::OpenSSLError(stack) => stack_text(stack),
        }
    }
}

} // verus!
