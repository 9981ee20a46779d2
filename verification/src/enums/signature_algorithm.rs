//! The registry of signature algorithms.

use crate::registry::ProtocolEnum;
use vstd::prelude::*;
use vstd::std_specs::cmp::PartialEqSpecImpl;
use vstd::std_specs::convert::FromSpecImpl;

verus! {

/// The kind of key that signs.
/// `Unknown` holds a code that has no name here.
#[non_exhaustive]
#[derive(Debug, Clone, Copy)]
pub enum SignatureAlgorithm {
    Anonymous,
    RSA,
    DSA,
    ECDSA,
    ED25519,
    ED448,
    Unknown(u8),
}

impl ProtocolEnum for SignatureAlgorithm {
    type Code = u8;

    open spec fn spec_registry() -> &'static str {
        "SignatureAlgorithm"
    }

    open spec fn spec_code(self) -> u8 {
        match self {
            Self::Anonymous => 0x00,
            Self::RSA => 0x01,
            Self::DSA => 0x02,
            Self::ECDSA => 0x03,
            Self::ED25519 => 0x07,
            Self::ED448 => 0x08,
            Self::Unknown(code) => code,
        }
    }

    open spec fn spec_from_code(code: u8) -> Self {
        match code {
            0x00 => Self::Anonymous,
            0x01 => Self::RSA,
            0x02 => Self::DSA,
            0x03 => Self::ECDSA,
            0x07 => Self::ED25519,
            0x08 => Self::ED448,
            _ => Self::Unknown(code),
        }
    }

    open spec fn spec_as_str(self) -> Option<&'static str> {
        match Self::spec_from_code(self.spec_code()) {
            Self::Anonymous => Some("Anonymous"),
            Self::RSA => Some("RSA"),
            Self::DSA => Some("DSA"),
            Self::ECDSA => Some("ECDSA"),
            Self::ED25519 => Some("ED25519"),
            Self::ED448 => Some("ED448"),
            Self::Unknown(_) => None,
        }
    }

    open spec fn spec_quiet(self) -> bool {
        false
    }

    proof fn lemma_code_of_decoded(code: u8) {
    }

    proof fn lemma_goes_by_code(a: Self, b: Self) {
    }

    fn registry() -> (name: &'static str) {
        "SignatureAlgorithm"
    }

    fn code(self) -> (code: u8) {
        match self {
            Self::Anonymous => 0x00,
            Self::RSA => 0x01,
            Self::DSA => 0x02,
            Self::ECDSA => 0x03,
            Self::ED25519 => 0x07,
            Self::ED448 => 0x08,
            Self::Unknown(code) => code,
        }
    }

    fn from_code(code: u8) -> (v: Self) {
        match code {
            0x00 => Self::Anonymous,
            0x01 => Self::RSA,
            0x02 => Self::DSA,
            0x03 => Self::ECDSA,
            0x07 => Self::ED25519,
            0x08 => Self::ED448,
            _ => Self::Unknown(code),
        }
    }

    fn as_str(&self) -> (name: Option<&'static str>) {
        match Self::from_code(self.code()) {
            Self::Anonymous => Some("Anonymous"),
            Self::RSA => Some("RSA"),
            Self::DSA => Some("DSA"),
            Self::ECDSA => Some("ECDSA"),
            Self::ED25519 => Some("ED25519"),
            Self::ED448 => Some("ED448"),
            Self::Unknown(_) => None,
        }
    }

    fn quiet(&self) -> (quiet: bool) {
        false
    }
}

impl From<u8> for SignatureAlgorithm {
    fn from(code: u8) -> (v: Self) {
        Self::from_code(code)
    }
}

impl FromSpecImpl<u8> for SignatureAlgorithm {
    open spec fn obeys_from_spec() -> bool {
        true
    }

    open spec fn from_spec(code: u8) -> Self {
        Self::spec_from_code(code)
    }
}

impl From<SignatureAlgorithm> for u8 {
    fn from(value: SignatureAlgorithm) -> (code: Self) {
        value.code()
    }
}

impl FromSpecImpl<SignatureAlgorithm> for u8 {
    open spec fn obeys_from_spec() -> bool {
        true
    }

    open spec fn from_spec(value: SignatureAlgorithm) -> Self {
        value.spec_code()
    }
}

/// Two values are equal when they stand for the same code.
impl PartialEq for SignatureAlgorithm {
    fn eq(&self, other: &Self) -> (equal: bool) {
        self.code() == other.code()
    }
}

impl PartialEqSpecImpl for SignatureAlgorithm {
    open spec fn obeys_eq_spec() -> bool {
        true
    }

    open spec fn eq_spec(&self, other: &Self) -> bool {
        self.spec_code() == other.spec_code()
    }
}

impl Eq for SignatureAlgorithm {}

} // verus!
