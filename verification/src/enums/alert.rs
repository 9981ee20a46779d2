//! The registry of alert descriptions.

use crate::registry::ProtocolEnum;
use vstd::prelude::*;
use vstd::std_specs::cmp::PartialEqSpecImpl;
use vstd::std_specs::convert::FromSpecImpl;

verus! {

/// What an alert says went wrong, or that the connection is closing.
/// `Unknown` holds a code that has no name here.
#[non_exhaustive]
#[derive(Debug, Clone, Copy)]
pub enum AlertDescription {
    CloseNotify,
    UnexpectedMessage,
    BadRecordMac,
    DecryptionFailed,
    RecordOverflow,
    DecompressionFailure,
    HandshakeFailure,
    NoCertificate,
    BadCertificate,
    UnsupportedCertificate,
    CertificateRevoked,
    CertificateExpired,
    CertificateUnknown,
    IllegalParameter,
    UnknownCA,
    AccessDenied,
    DecodeError,
    DecryptError,
    ExportRestriction,
    ProtocolVersion,
    InsufficientSecurity,
    InternalError,
    InappropriateFallback,
    UserCanceled,
    NoRenegotiation,
    MissingExtension,
    UnsupportedExtension,
    CertificateUnobtainable,
    UnrecognisedName,
    BadCertificateStatusResponse,
    BadCertificateHashValue,
    UnknownPSKIdentity,
    CertificateRequired,
    NoApplicationProtocol,
    EncryptedClientHelloRequired,
    Unknown(u8),
}

impl ProtocolEnum for AlertDescription {
    type Code = u8;

    open spec fn spec_registry() -> &'static str {
        "AlertDescription"
    }

    open spec fn spec_code(self) -> u8 {
        match self {
            Self::CloseNotify => 0x00,
            Self::UnexpectedMessage => 0x0a,
            Self::BadRecordMac => 0x14,
            Self::DecryptionFailed => 0x15,
            Self::RecordOverflow => 0x16,
            Self::DecompressionFailure => 0x1e,
            Self::HandshakeFailure => 0x28,
            Self::NoCertificate => 0x29,
            Self::BadCertificate => 0x2a,
            Self::UnsupportedCertificate => 0x2b,
            Self::CertificateRevoked => 0x2c,
            Self::CertificateExpired => 0x2d,
            Self::CertificateUnknown => 0x2e,
            Self::IllegalParameter => 0x2f,
            Self::UnknownCA => 0x30,
            Self::AccessDenied => 0x31,
            Self::DecodeError => 0x32,
            Self::DecryptError => 0x33,
            Self::ExportRestriction => 0x3c,
            Self::ProtocolVersion => 0x46,
            Self::InsufficientSecurity => 0x47,
            Self::InternalError => 0x50,
            Self::InappropriateFallback => 0x56,
            Self::UserCanceled => 0x5a,
            Self::NoRenegotiation => 0x64,
            Self::MissingExtension => 0x6d,
            Self::UnsupportedExtension => 0x6e,
            Self::CertificateUnobtainable => 0x6f,
            Self::UnrecognisedName => 0x70,
            Self::BadCertificateStatusResponse => 0x71,
            Self::BadCertificateHashValue => 0x72,
            Self::UnknownPSKIdentity => 0x73,
            Self::CertificateRequired => 0x74,
            Self::NoApplicationProtocol => 0x78,
            Self::EncryptedClientHelloRequired => 0x79,
            Self::Unknown(code) => code,
        }
    }

    open spec fn spec_from_code(code: u8) -> Self {
        match code {
            0x00 => Self::CloseNotify,
            0x0a => Self::UnexpectedMessage,
            0x14 => Self::BadRecordMac,
            0x15 => Self::DecryptionFailed,
            0x16 => Self::RecordOverflow,
            0x1e => Self::DecompressionFailure,
            0x28 => Self::HandshakeFailure,
            0x29 => Self::NoCertificate,
            0x2a => Self::BadCertificate,
            0x2b => Self::UnsupportedCertificate,
            0x2c => Self::CertificateRevoked,
            0x2d => Self::CertificateExpired,
            0x2e => Self::CertificateUnknown,
            0x2f => Self::IllegalParameter,
            0x30 => Self::UnknownCA,
            0x31 => Self::AccessDenied,
            0x32 => Self::DecodeError,
            0x33 => Self::DecryptError,
            0x3c => Self::ExportRestriction,
            0x46 => Self::ProtocolVersion,
            0x47 => Self::InsufficientSecurity,
            0x50 => Self::InternalError,
            0x56 => Self::InappropriateFallback,
            0x5a => Self::UserCanceled,
            0x64 => Self::NoRenegotiation,
            0x6d => Self::MissingExtension,
            0x6e => Self::UnsupportedExtension,
            0x6f => Self::CertificateUnobtainable,
            0x70 => Self::UnrecognisedName,
            0x71 => Self::BadCertificateStatusResponse,
            0x72 => Self::BadCertificateHashValue,
            0x73 => Self::UnknownPSKIdentity,
            0x74 => Self::CertificateRequired,
            0x78 => Self::NoApplicationProtocol,
            0x79 => Self::EncryptedClientHelloRequired,
            _ => Self::Unknown(code),
        }
    }

    open spec fn spec_as_str(self) -> Option<&'static str> {
        match Self::spec_from_code(self.spec_code()) {
            Self::CloseNotify => Some("CloseNotify"),
            Self::UnexpectedMessage => Some("UnexpectedMessage"),
            Self::BadRecordMac => Some("BadRecordMac"),
            Self::DecryptionFailed => Some("DecryptionFailed"),
            Self::RecordOverflow => Some("RecordOverflow"),
            Self::DecompressionFailure => Some("DecompressionFailure"),
            Self::HandshakeFailure => Some("HandshakeFailure"),
            Self::NoCertificate => Some("NoCertificate"),
            Self::BadCertificate => Some("BadCertificate"),
            Self::UnsupportedCertificate => Some("UnsupportedCertificate"),
            Self::CertificateRevoked => Some("CertificateRevoked"),
            Self::CertificateExpired => Some("CertificateExpired"),
            Self::CertificateUnknown => Some("CertificateUnknown"),
            Self::IllegalParameter => Some("IllegalParameter"),
            Self::UnknownCA => Some("UnknownCA"),
            Self::AccessDenied => Some("AccessDenied"),
            Self::DecodeError => Some("DecodeError"),
            Self::DecryptError => Some("DecryptError"),
            Self::ExportRestriction => Some("ExportRestriction"),
            Self::ProtocolVersion => Some("ProtocolVersion"),
            Self::InsufficientSecurity => Some("InsufficientSecurity"),
            Self::InternalError => Some("InternalError"),
            Self::InappropriateFallback => Some("InappropriateFallback"),
            Self::UserCanceled => Some("UserCanceled"),
            Self::NoRenegotiation => Some("NoRenegotiation"),
            Self::MissingExtension => Some("MissingExtension"),
            Self::UnsupportedExtension => Some("UnsupportedExtension"),
            Self::CertificateUnobtainable => Some("CertificateUnobtainable"),
            Self::UnrecognisedName => Some("UnrecognisedName"),
            Self::BadCertificateStatusResponse => Some("BadCertificateStatusResponse"),
            Self::BadCertificateHashValue => Some("BadCertificateHashValue"),
            Self::UnknownPSKIdentity => Some("UnknownPSKIdentity"),
            Self::CertificateRequired => Some("CertificateRequired"),
            Self::NoApplicationProtocol => Some("NoApplicationProtocol"),
            Self::EncryptedClientHelloRequired => Some("EncryptedClientHelloRequired"),
            Self::Unknown(_) => None,
        }
    }

    open spec fn spec_quiet(self) -> bool {
        false
    }

    proof fn lemma_code_of_decoded(code: u8) {
    }

    proof fn lemma_goes_by_code(a: Self, b: Self) {
    }

    fn registry() -> (name: &'static str) {
        "AlertDescription"
    }

    fn code(self) -> (code: u8) {
        match self {
            Self::CloseNotify => 0x00,
            Self::UnexpectedMessage => 0x0a,
            Self::BadRecordMac => 0x14,
            Self::DecryptionFailed => 0x15,
            Self::RecordOverflow => 0x16,
            Self::DecompressionFailure => 0x1e,
            Self::HandshakeFailure => 0x28,
            Self::NoCertificate => 0x29,
            Self::BadCertificate => 0x2a,
            Self::UnsupportedCertificate => 0x2b,
            Self::CertificateRevoked => 0x2c,
            Self::CertificateExpired => 0x2d,
            Self::CertificateUnknown => 0x2e,
            Self::IllegalParameter => 0x2f,
            Self::UnknownCA => 0x30,
            Self::AccessDenied => 0x31,
            Self::DecodeError => 0x32,
            Self::DecryptError => 0x33,
            Self::ExportRestriction => 0x3c,
            Self::ProtocolVersion => 0x46,
            Self::InsufficientSecurity => 0x47,
            Self::InternalError => 0x50,
            Self::InappropriateFallback => 0x56,
            Self::UserCanceled => 0x5a,
            Self::NoRenegotiation => 0x64,
            Self::MissingExtension => 0x6d,
            Self::UnsupportedExtension => 0x6e,
            Self::CertificateUnobtainable => 0x6f,
            Self::UnrecognisedName => 0x70,
            Self::BadCertificateStatusResponse => 0x71,
            Self::BadCertificateHashValue => 0x72,
            Self::UnknownPSKIdentity => 0x73,
            Self::CertificateRequired => 0x74,
            Self::NoApplicationProtocol => 0x78,
            Self::EncryptedClientHelloRequired => 0x79,
            Self::Unknown(code) => code,
        }
    }

    fn from_code(code: u8) -> (v: Self) {
        match code {
            0x00 => Self::CloseNotify,
            0x0a => Self::UnexpectedMessage,
            0x14 => Self::BadRecordMac,
            0x15 => Self::DecryptionFailed,
            0x16 => Self::RecordOverflow,
            0x1e => Self::DecompressionFailure,
            0x28 => Self::HandshakeFailure,
            0x29 => Self::NoCertificate,
            0x2a => Self::BadCertificate,
            0x2b => Self::UnsupportedCertificate,
            0x2c => Self::CertificateRevoked,
            0x2d => Self::CertificateExpired,
            0x2e => Self::CertificateUnknown,
            0x2f => Self::IllegalParameter,
            0x30 => Self::UnknownCA,
            0x31 => Self::AccessDenied,
            0x32 => Self::DecodeError,
            0x33 => Self::DecryptError,
            0x3c => Self::ExportRestriction,
            0x46 => Self::ProtocolVersion,
            0x47 => Self::InsufficientSecurity,
            0x50 => Self::InternalError,
            0x56 => Self::InappropriateFallback,
            0x5a => Self::UserCanceled,
            0x64 => Self::NoRenegotiation,
            0x6d => Self::MissingExtension,
            0x6e => Self::UnsupportedExtension,
            0x6f => Self::CertificateUnobtainable,
            0x70 => Self::UnrecognisedName,
            0x71 => Self::BadCertificateStatusResponse,
            0x72 => Self::BadCertificateHashValue,
            0x73 => Self::UnknownPSKIdentity,
            0x74 => Self::CertificateRequired,
            0x78 => Self::NoApplicationProtocol,
            0x79 => Self::EncryptedClientHelloRequired,
            _ => Self::Unknown(code),
        }
    }

    fn as_str(&self) -> (name: Option<&'static str>) {
        match Self::from_code(self.code()) {
            Self::CloseNotify => Some("CloseNotify"),
            Self::UnexpectedMessage => Some("UnexpectedMessage"),
            Self::BadRecordMac => Some("BadRecordMac"),
            Self::DecryptionFailed => Some("DecryptionFailed"),
            Self::RecordOverflow => Some("RecordOverflow"),
            Self::DecompressionFailure => Some("DecompressionFailure"),
            Self::HandshakeFailure => Some("HandshakeFailure"),
            Self::NoCertificate => Some("NoCertificate"),
            Self::BadCertificate => Some("BadCertificate"),
            Self::UnsupportedCertificate => Some("UnsupportedCertificate"),
            Self::CertificateRevoked => Some("CertificateRevoked"),
            Self::CertificateExpired => Some("CertificateExpired"),
            Self::CertificateUnknown => Some("CertificateUnknown"),
            Self::IllegalParameter => Some("IllegalParameter"),
            Self::UnknownCA => Some("UnknownCA"),
            Self::AccessDenied => Some("AccessDenied"),
            Self::DecodeError => Some("DecodeError"),
            Self::DecryptError => Some("DecryptError"),
            Self::ExportRestriction => Some("ExportRestriction"),
            Self::ProtocolVersion => Some("ProtocolVersion"),
            Self::InsufficientSecurity => Some("InsufficientSecurity"),
            Self::InternalError => Some("InternalError"),
            Self::InappropriateFallback => Some("InappropriateFallback"),
            Self::UserCanceled => Some("UserCanceled"),
            Self::NoRenegotiation => Some("NoRenegotiation"),
            Self::MissingExtension => Some("MissingExtension"),
            Self::UnsupportedExtension => Some("UnsupportedExtension"),
            Self::CertificateUnobtainable => Some("CertificateUnobtainable"),
            Self::UnrecognisedName => Some("UnrecognisedName"),
            Self::BadCertificateStatusResponse => Some("BadCertificateStatusResponse"),
            Self::BadCertificateHashValue => Some("BadCertificateHashValue"),
            Self::UnknownPSKIdentity => Some("UnknownPSKIdentity"),
            Self::CertificateRequired => Some("CertificateRequired"),
            Self::NoApplicationProtocol => Some("NoApplicationProtocol"),
            Self::EncryptedClientHelloRequired => Some("EncryptedClientHelloRequired"),
            Self::Unknown(_) => None,
        }
    }

    fn quiet(&self) -> (quiet: bool) {
        false
    }
}

impl From<u8> for AlertDescription {
    fn from(code: u8) -> (v: Self) {
        Self::from_code(code)
    }
}

impl FromSpecImpl<u8> for AlertDescription {
    open spec fn obeys_from_spec() -> bool {
        true
    }

    open spec fn from_spec(code: u8) -> Self {
        Self::spec_from_code(code)
    }
}

impl From<AlertDescription> for u8 {
    fn from(value: AlertDescription) -> (code: Self) {
        value.code()
    }
}

impl FromSpecImpl<AlertDescription> for u8 {
    open spec fn obeys_from_spec() -> bool {
        true
    }

    open spec fn from_spec(value: AlertDescription) -> Self {
        value.spec_code()
    }
}

/// Two values are equal when they stand for the same code.
impl PartialEq for AlertDescription {
    fn eq(&self, other: &Self) -> (equal: bool) {
        self.code() == other.code()
    }
}

impl PartialEqSpecImpl for AlertDescription {
    open spec fn obeys_eq_spec() -> bool {
        true
    }

    open spec fn eq_spec(&self, other: &Self) -> bool {
        self.spec_code() == other.spec_code()
    }
}

impl Eq for AlertDescription {}

} // verus!
