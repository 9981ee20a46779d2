//! The registry of certificate compression algorithms.

use crate::registry::ProtocolEnum;
use vstd::prelude::*;
use vstd::std_specs::cmp::PartialEqSpecImpl;
use vstd::std_specs::convert::FromSpecImpl;

verus! {

/// How a certificate message is compressed.
/// `Unknown` holds a code that has no name here.
#[non_exhaustive]
#[derive(Debug, Clone, Copy)]
pub enum CertificateCompressionAlgorithm {
    Zlib,
    Brotli,
    Zstd,
    Unknown(u16),
}

impl ProtocolEnum for CertificateCompressionAlgorithm {
    type Code = u16;

    open spec fn spec_registry() -> &'static str {
        "CertificateCompressionAlgorithm"
    }

    open spec fn spec_code(self) -> u16 {
        match self {
            Self::Zlib => 0x0001,
            Self::Brotli => 0x0002,
            Self::Zstd => 0x0003,
            Self::Unknown(code) => code,
        }
    }

    open spec fn spec_from_code(code: u16) -> Self {
        match code {
            0x0001 => Self::Zlib,
            0x0002 => Self::Brotli,
            0x0003 => Self::Zstd,
            _ => Self::Unknown(code),
        }
    }

    open spec fn spec_as_str(self) -> Option<&'static str> {
        match Self::spec_from_code(self.spec_code()) {
            Self::Zlib => Some("Zlib"),
            Self::Brotli => Some("Brotli"),
            Self::Zstd => Some("Zstd"),
            Self::Unknown(_) => None,
        }
    }

    open spec fn spec_quiet(self) -> bool {
        false
    }

    proof fn lemma_code_of_decoded(code: u16) {
    }

    proof fn lemma_goes_by_code(a: Self, b: Self) {
    }

    fn registry() -> (name: &'static str) {
        "CertificateCompressionAlgorithm"
    }

    fn code(self) -> (code: u16) {
        match self {
            Self::Zlib => 0x0001,
            Self::Brotli => 0x0002,
            Self::Zstd => 0x0003,
            Self::Unknown(code) => code,
        }
    }

    fn from_code(code: u16) -> (v: Self) {
        match code {
            0x0001 => Self::Zlib,
            0x0002 => Self::Brotli,
            0x0003 => Self::Zstd,
            _ => Self::Unknown(code),
        }
    }

    fn as_str(&self) -> (name: Option<&'static str>) {
        match Self::from_code(self.code()) {
            Self::Zlib => Some("Zlib"),
            Self::Brotli => Some("Brotli"),
            Self::Zstd => Some("Zstd"),
            Self::Unknown(_) => None,
        }
    }

    fn quiet(&self) -> (quiet: bool) {
        false
    }
}

impl From<u16> for CertificateCompressionAlgorithm {
    fn from(code: u16) -> (v: Self) {
        Self::from_code(code)
    }
}

impl FromSpecImpl<u16> for CertificateCompressionAlgorithm {
    open spec fn obeys_from_spec() -> bool {
        true
    }

    open spec fn from_spec(code: u16) -> Self {
        Self::spec_from_code(code)
    }
}

impl From<CertificateCompressionAlgorithm> for u16 {
    fn from(value: CertificateCompressionAlgorithm) -> (code: Self) {
        value.code()
    }
}

impl FromSpecImpl<CertificateCompressionAlgorithm> for u16 {
    open spec fn obeys_from_spec() -> bool {
        true
    }

    open spec fn from_spec(value: CertificateCompressionAlgorithm) -> Self {
        value.spec_code()
    }
}

/// Two values are equal when they stand for the same code.
impl PartialEq for CertificateCompressionAlgorithm {
    fn eq(&self, other: &Self) -> (equal: bool) {
        self.code() == other.code()
    }
}

impl PartialEqSpecImpl for CertificateCompressionAlgorithm {
    open spec fn obeys_eq_spec() -> bool {
        true
    }

    open spec fn eq_spec(&self, other: &Self) -> bool {
        self.spec_code() == other.spec_code()
    }
}

impl Eq for CertificateCompressionAlgorithm {}

} // verus!
