//! The registry of certificate types.

use crate::registry::ProtocolEnum;
use vstd::prelude::*;
use vstd::std_specs::cmp::PartialEqSpecImpl;
use vstd::std_specs::convert::FromSpecImpl;

verus! {

/// The form in which an endpoint presents its key: a certificate chain, or
/// the bare public key.
/// `Unknown` holds a code that has no name here.
#[non_exhaustive]
#[derive(Debug, Clone, Copy)]
pub enum CertificateType {
    X509,
    RawPublicKey,
    Unknown(u8),
}

impl ProtocolEnum for CertificateType {
    type Code = u8;

    open spec fn spec_registry() -> &'static str {
        "CertificateType"
    }

    open spec fn spec_code(self) -> u8 {
        match self {
            Self::X509 => 0x00,
            Self::RawPublicKey => 0x02,
            Self::Unknown(code) => code,
        }
    }

    open spec fn spec_from_code(code: u8) -> Self {
        match code {
            0x00 => Self::X509,
            0x02 => Self::RawPublicKey,
            _ => Self::Unknown(code),
        }
    }

    open spec fn spec_as_str(self) -> Option<&'static str> {
        match Self::spec_from_code(self.spec_code()) {
            Self::X509 => Some("X509"),
            Self::RawPublicKey => Some("RawPublicKey"),
            Self::Unknown(_) => None,
        }
    }

    open spec fn spec_quiet(self) -> bool {
        false
    }

    proof fn lemma_code_of_decoded(code: u8) {
    }

    proof fn lemma_goes_by_code(a: Self, b: Self) {
    }

    fn registry() -> (name: &'static str) {
        "CertificateType"
    }

    fn code(self) -> (code: u8) {
        match self {
            Self::X509 => 0x00,
            Self::RawPublicKey => 0x02,
            Self::Unknown(code) => code,
        }
    }

    fn from_code(code: u8) -> (v: Self) {
        match code {
            0x00 => Self::X509,
            0x02 => Self::RawPublicKey,
            _ => Self::Unknown(code),
        }
    }

    fn as_str(&self) -> (name: Option<&'static str>) {
        match Self::from_code(self.code()) {
            Self::X509 => Some("X509"),
            Self::RawPublicKey => Some("RawPublicKey"),
            Self::Unknown(_) => None,
        }
    }

    fn quiet(&self) -> (quiet: bool) {
        false
    }
}

impl From<u8> for CertificateType {
    fn from(code: u8) -> (v: Self) {
        Self::from_code(code)
    }
}

impl FromSpecImpl<u8> for CertificateType {
    open spec fn obeys_from_spec() -> bool {
        true
    }

    open spec fn from_spec(code: u8) -> Self {
        Self::spec_from_code(code)
    }
}

impl From<CertificateType> for u8 {
    fn from(value: CertificateType) -> (code: Self) {
        value.code()
    }
}

impl FromSpecImpl<CertificateType> for u8 {
    open spec fn obeys_from_spec() -> bool {
        true
    }

    open spec fn from_spec(value: CertificateType) -> Self {
        value.spec_code()
    }
}

/// Two values are equal when they stand for the same code.
impl PartialEq for CertificateType {
    fn eq(&self, other: &Self) -> (equal: bool) {
        self.code() == other.code()
    }
}

impl PartialEqSpecImpl for CertificateType {
    open spec fn obeys_eq_spec() -> bool {
        true
    }

    open spec fn eq_spec(&self, other: &Self) -> bool {
        self.spec_code() == other.spec_code()
    }
}

impl Eq for CertificateType {}

} // verus!
