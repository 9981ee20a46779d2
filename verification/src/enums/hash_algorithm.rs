//! The registry of hash algorithms.

use crate::registry::ProtocolEnum;
use vstd::prelude::*;
use vstd::std_specs::cmp::PartialEqSpecImpl;
use vstd::std_specs::convert::FromSpecImpl;

verus! {

/// The hash named by the high byte of an older signature scheme.
/// `Unknown` holds a code that has no name here.
#[non_exhaustive]
#[derive(Debug, Clone, Copy)]
pub enum HashAlgorithm {
    NONE,
    MD5,
    SHA1,
    SHA224,
    SHA256,
    SHA384,
    SHA512,
    Unknown(u8),
}

impl ProtocolEnum for HashAlgorithm {
    type Code = u8;

    open spec fn spec_registry() -> &'static str {
        "HashAlgorithm"
    }

    open spec fn spec_code(self) -> u8 {
        match self {
            Self::NONE => 0x00,
            Self::MD5 => 0x01,
            Self::SHA1 => 0x02,
            Self::SHA224 => 0x03,
            Self::SHA256 => 0x04,
            Self::SHA384 => 0x05,
            Self::SHA512 => 0x06,
            Self::Unknown(code) => code,
        }
    }

    open spec fn spec_from_code(code: u8) -> Self {
        match code {
            0x00 => Self::NONE,
            0x01 => Self::MD5,
            0x02 => Self::SHA1,
            0x03 => Self::SHA224,
            0x04 => Self::SHA256,
            0x05 => Self::SHA384,
            0x06 => Self::SHA512,
            _ => Self::Unknown(code),
        }
    }

    open spec fn spec_as_str(self) -> Option<&'static str> {
        match Self::spec_from_code(self.spec_code()) {
            Self::NONE => Some("NONE"),
            Self::MD5 => Some("MD5"),
            Self::SHA1 => Some("SHA1"),
            Self::SHA224 => Some("SHA224"),
            Self::SHA256 => Some("SHA256"),
            Self::SHA384 => Some("SHA384"),
            Self::SHA512 => Some("SHA512"),
            Self::Unknown(_) => None,
        }
    }

    open spec fn spec_quiet(self) -> bool {
        false
    }

    proof fn lemma_code_of_decoded(code: u8) {
    }

    proof fn lemma_goes_by_code(a: Self, b: Self) {
    }

    fn registry() -> (name: &'static str) {
        "HashAlgorithm"
    }

    fn code(self) -> (code: u8) {
        match self {
            Self::NONE => 0x00,
            Self::MD5 => 0x01,
            Self::SHA1 => 0x02,
            Self::SHA224 => 0x03,
            Self::SHA256 => 0x04,
            Self::SHA384 => 0x05,
            Self::SHA512 => 0x06,
            Self::Unknown(code) => code,
        }
    }

    fn from_code(code: u8) -> (v: Self) {
        match code {
            0x00 => Self::NONE,
            0x01 => Self::MD5,
            0x02 => Self::SHA1,
            0x03 => Self::SHA224,
            0x04 => Self::SHA256,
            0x05 => Self::SHA384,
            0x06 => Self::SHA512,
            _ => Self::Unknown(code),
        }
    }

    fn as_str(&self) -> (name: Option<&'static str>) {
        match Self::from_code(self.code()) {
            Self::NONE => Some("NONE"),
            Self::MD5 => Some("MD5"),
            Self::SHA1 => Some("SHA1"),
            Self::SHA224 => Some("SHA224"),
            Self::SHA256 => Some("SHA256"),
            Self::SHA384 => Some("SHA384"),
            Self::SHA512 => Some("SHA512"),
            Self::Unknown(_) => None,
        }
    }

    fn quiet(&self) -> (quiet: bool) {
        false
    }
}

impl From<u8> for HashAlgorithm {
    fn from(code: u8) -> (v: Self) {
        Self::from_code(code)
    }
}

impl FromSpecImpl<u8> for HashAlgorithm {
    open spec fn obeys_from_spec() -> bool {
        true
    }

    open spec fn from_spec(code: u8) -> Self {
        Self::spec_from_code(code)
    }
}

impl From<HashAlgorithm> for u8 {
    fn from(value: HashAlgorithm) -> (code: Self) {
        value.code()
    }
}

impl FromSpecImpl<HashAlgorithm> for u8 {
    open spec fn obeys_from_spec() -> bool {
        true
    }

    open spec fn from_spec(value: HashAlgorithm) -> Self {
        value.spec_code()
    }
}

/// Two values are equal when they stand for the same code.
impl PartialEq for HashAlgorithm {
    fn eq(&self, other: &Self) -> (equal: bool) {
        self.code() == other.code()
    }
}

impl PartialEqSpecImpl for HashAlgorithm {
    open spec fn obeys_eq_spec() -> bool {
        true
    }

    open spec fn eq_spec(&self, other: &Self) -> bool {
        self.spec_code() == other.spec_code()
    }
}

impl Eq for HashAlgorithm {}

} // verus!
