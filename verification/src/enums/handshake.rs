//! The registry of handshake message types.

use crate::registry::ProtocolEnum;
use vstd::prelude::*;
use vstd::std_specs::cmp::PartialEqSpecImpl;
use vstd::std_specs::convert::FromSpecImpl;

verus! {

/// Which handshake message follows.
/// `Unknown` holds a code that has no name here.
#[non_exhaustive]
#[derive(Debug, Clone, Copy)]
pub enum HandshakeType {
    HelloRequest,
    ClientHello,
    ServerHello,
    HelloVerifyRequest,
    NewSessionTicket,
    EndOfEarlyData,
    HelloRetryRequest,
    EncryptedExtensions,
    Certificate,
    ServerKeyExchange,
    CertificateRequest,
    ServerHelloDone,
    CertificateVerify,
    ClientKeyExchange,
    Finished,
    CertificateURL,
    CertificateStatus,
    KeyUpdate,
    CompressedCertificate,
    MessageHash,
    Unknown(u8),
}

impl ProtocolEnum for HandshakeType {
    type Code = u8;

    open spec fn spec_registry() -> &'static str {
        "HandshakeType"
    }

    open spec fn spec_code(self) -> u8 {
        match self {
            Self::HelloRequest => 0x00,
            Self::ClientHello => 0x01,
            Self::ServerHello => 0x02,
            Self::HelloVerifyRequest => 0x03,
            Self::NewSessionTicket => 0x04,
            Self::EndOfEarlyData => 0x05,
            Self::HelloRetryRequest => 0x06,
            Self::EncryptedExtensions => 0x08,
            Self::Certificate => 0x0b,
            Self::ServerKeyExchange => 0x0c,
            Self::CertificateRequest => 0x0d,
            Self::ServerHelloDone => 0x0e,
            Self::CertificateVerify => 0x0f,
            Self::ClientKeyExchange => 0x10,
            Self::Finished => 0x14,
            Self::CertificateURL => 0x15,
            Self::CertificateStatus => 0x16,
            Self::KeyUpdate => 0x18,
            Self::CompressedCertificate => 0x19,
            Self::MessageHash => 0xfe,
            Self::Unknown(code) => code,
        }
    }

    open spec fn spec_from_code(code: u8) -> Self {
        match code {
            0x00 => Self::HelloRequest,
            0x01 => Self::ClientHello,
            0x02 => Self::ServerHello,
            0x03 => Self::HelloVerifyRequest,
            0x04 => Self::NewSessionTicket,
            0x05 => Self::EndOfEarlyData,
            0x06 => Self::HelloRetryRequest,
            0x08 => Self::EncryptedExtensions,
            0x0b => Self::Certificate,
            0x0c => Self::ServerKeyExchange,
            0x0d => Self::CertificateRequest,
            0x0e => Self::ServerHelloDone,
            0x0f => Self::CertificateVerify,
            0x10 => Self::ClientKeyExchange,
            0x14 => Self::Finished,
            0x15 => Self::CertificateURL,
            0x16 => Self::CertificateStatus,
            0x18 => Self::KeyUpdate,
            0x19 => Self::CompressedCertificate,
            0xfe => Self::MessageHash,
            _ => Self::Unknown(code),
        }
    }

    open spec fn spec_as_str(self) -> Option<&'static str> {
        match Self::spec_from_code(self.spec_code()) {
            Self::HelloRequest => Some("HelloRequest"),
            Self::ClientHello => Some("ClientHello"),
            Self::ServerHello => Some("ServerHello"),
            Self::HelloVerifyRequest => Some("HelloVerifyRequest"),
            Self::NewSessionTicket => Some("NewSessionTicket"),
            Self::EndOfEarlyData => Some("EndOfEarlyData"),
            Self::HelloRetryRequest => Some("HelloRetryRequest"),
            Self::EncryptedExtensions => Some("EncryptedExtensions"),
            Self::Certificate => Some("Certificate"),
            Self::ServerKeyExchange => Some("ServerKeyExchange"),
            Self::CertificateRequest => Some("CertificateRequest"),
            Self::ServerHelloDone => Some("ServerHelloDone"),
            Self::CertificateVerify => Some("CertificateVerify"),
            Self::ClientKeyExchange => Some("ClientKeyExchange"),
            Self::Finished => Some("Finished"),
            Self::CertificateURL => Some("CertificateURL"),
            Self::CertificateStatus => Some("CertificateStatus"),
            Self::KeyUpdate => Some("KeyUpdate"),
            Self::CompressedCertificate => Some("CompressedCertificate"),
            Self::MessageHash => Some("MessageHash"),
            Self::Unknown(_) => None,
        }
    }

    open spec fn spec_quiet(self) -> bool {
        false
    }

    proof fn lemma_code_of_decoded(code: u8) {
    }

    proof fn lemma_goes_by_code(a: Self, b: Self) {
    }

    fn registry() -> (name: &'static str) {
        "HandshakeType"
    }

    fn code(self) -> (code: u8) {
        match self {
            Self::HelloRequest => 0x00,
            Self::ClientHello => 0x01,
            Self::ServerHello => 0x02,
            Self::HelloVerifyRequest => 0x03,
            Self::NewSessionTicket => 0x04,
            Self::EndOfEarlyData => 0x05,
            Self::HelloRetryRequest => 0x06,
            Self::EncryptedExtensions => 0x08,
            Self::Certificate => 0x0b,
            Self::ServerKeyExchange => 0x0c,
            Self::CertificateRequest => 0x0d,
            Self::ServerHelloDone => 0x0e,
            Self::CertificateVerify => 0x0f,
            Self::ClientKeyExchange => 0x10,
            Self::Finished => 0x14,
            Self::CertificateURL => 0x15,
            Self::CertificateStatus => 0x16,
            Self::KeyUpdate => 0x18,
            Self::CompressedCertificate => 0x19,
            Self::MessageHash => 0xfe,
            Self::Unknown(code) => code,
        }
    }

    fn from_code(code: u8) -> (v: Self) {
        match code {
            0x00 => Self::HelloRequest,
            0x01 => Self::ClientHello,
            0x02 => Self::ServerHello,
            0x03 => Self::HelloVerifyRequest,
            0x04 => Self::NewSessionTicket,
            0x05 => Self::EndOfEarlyData,
            0x06 => Self::HelloRetryRequest,
            0x08 => Self::EncryptedExtensions,
            0x0b => Self::Certificate,
            0x0c => Self::ServerKeyExchange,
            0x0d => Self::CertificateRequest,
            0x0e => Self::ServerHelloDone,
            0x0f => Self::CertificateVerify,
            0x10 => Self::ClientKeyExchange,
            0x14 => Self::Finished,
            0x15 => Self::CertificateURL,
            0x16 => Self::CertificateStatus,
            0x18 => Self::KeyUpdate,
            0x19 => Self::CompressedCertificate,
            0xfe => Self::MessageHash,
            _ => Self::Unknown(code),
        }
    }

    fn as_str(&self) -> (name: Option<&'static str>) {
        match Self::from_code(self.code()) {
            Self::HelloRequest => Some("HelloRequest"),
            Self::ClientHello => Some("ClientHello"),
            Self::ServerHello => Some("ServerHello"),
            Self::HelloVerifyRequest => Some("HelloVerifyRequest"),
            Self::NewSessionTicket => Some("NewSessionTicket"),
            Self::EndOfEarlyData => Some("EndOfEarlyData"),
            Self::HelloRetryRequest => Some("HelloRetryRequest"),
            Self::EncryptedExtensions => Some("EncryptedExtensions"),
            Self::Certificate => Some("Certificate"),
            Self::ServerKeyExchange => Some("ServerKeyExchange"),
            Self::CertificateRequest => Some("CertificateRequest"),
            Self::ServerHelloDone => Some("ServerHelloDone"),
            Self::CertificateVerify => Some("CertificateVerify"),
            Self::ClientKeyExchange => Some("ClientKeyExchange"),
            Self::Finished => Some("Finished"),
            Self::CertificateURL => Some("CertificateURL"),
            Self::CertificateStatus => Some("CertificateStatus"),
            Self::KeyUpdate => Some("KeyUpdate"),
            Self::CompressedCertificate => Some("CompressedCertificate"),
            Self::MessageHash => Some("MessageHash"),
            Self::Unknown(_) => None,
        }
    }

    fn quiet(&self) -> (quiet: bool) {
        false
    }
}

impl From<u8> for HandshakeType {
    fn from(code: u8) -> (v: Self) {
        Self::from_code(code)
    }
}

impl FromSpecImpl<u8> for HandshakeType {
    open spec fn obeys_from_spec() -> bool {
        true
    }

    open spec fn from_spec(code: u8) -> Self {
        Self::spec_from_code(code)
    }
}

impl From<HandshakeType> for u8 {
    fn from(value: HandshakeType) -> (code: Self) {
        value.code()
    }
}

impl FromSpecImpl<HandshakeType> for u8 {
    open spec fn obeys_from_spec() -> bool {
        true
    }

    open spec fn from_spec(value: HandshakeType) -> Self {
        value.spec_code()
    }
}

/// Two values are equal when they stand for the same code.
impl PartialEq for HandshakeType {
    fn eq(&self, other: &Self) -> (equal: bool) {
        self.code() == other.code()
    }
}

impl PartialEqSpecImpl for HandshakeType {
    open spec fn obeys_eq_spec() -> bool {
        true
    }

    open spec fn eq_spec(&self, other: &Self) -> bool {
        self.spec_code() == other.spec_code()
    }
}

impl Eq for HandshakeType {}

} // verus!
