//! The registry of record content types.

use crate::registry::ProtocolEnum;
use vstd::prelude::*;
use vstd::std_specs::cmp::PartialEqSpecImpl;
use vstd::std_specs::convert::FromSpecImpl;

verus! {

/// What kind of payload a record carries.
/// `Unknown` holds a code that has no name here.
#[non_exhaustive]
#[derive(Debug, Clone, Copy)]
pub enum ContentType {
    ChangeCipherSpec,
    Alert,
    Handshake,
    ApplicationData,
    Heartbeat,
    Unknown(u8),
}

impl ProtocolEnum for ContentType {
    type Code = u8;

    open spec fn spec_registry() -> &'static str {
        "ContentType"
    }

    open spec fn spec_code(self) -> u8 {
        match self {
            Self::ChangeCipherSpec => 0x14,
            Self::Alert => 0x15,
            Self::Handshake => 0x16,
            Self::ApplicationData => 0x17,
            Self::Heartbeat => 0x18,
            Self::Unknown(code) => code,
        }
    }

    open spec fn spec_from_code(code: u8) -> Self {
        match code {
            0x14 => Self::ChangeCipherSpec,
            0x15 => Self::Alert,
            0x16 => Self::Handshake,
            0x17 => Self::ApplicationData,
            0x18 => Self::Heartbeat,
            _ => Self::Unknown(code),
        }
    }

    open spec fn spec_as_str(self) -> Option<&'static str> {
        match Self::spec_from_code(self.spec_code()) {
            Self::ChangeCipherSpec => Some("ChangeCipherSpec"),
            Self::Alert => Some("Alert"),
            Self::Handshake => Some("Handshake"),
            Self::ApplicationData => Some("ApplicationData"),
            Self::Heartbeat => Some("Heartbeat"),
            Self::Unknown(_) => None,
        }
    }

    open spec fn spec_quiet(self) -> bool {
        false
    }

    proof fn lemma_code_of_decoded(code: u8) {
    }

    proof fn lemma_goes_by_code(a: Self, b: Self) {
    }

    fn registry() -> (name: &'static str) {
        "ContentType"
    }

    fn code(self) -> (code: u8) {
        match self {
            Self::ChangeCipherSpec => 0x14,
            Self::Alert => 0x15,
            Self::Handshake => 0x16,
            Self::ApplicationData => 0x17,
            Self::Heartbeat => 0x18,
            Self::Unknown(code) => code,
        }
    }

    fn from_code(code: u8) -> (v: Self) {
        match code {
            0x14 => Self::ChangeCipherSpec,
            0x15 => Self::Alert,
            0x16 => Self::Handshake,
            0x17 => Self::ApplicationData,
            0x18 => Self::Heartbeat,
            _ => Self::Unknown(code),
        }
    }

    fn as_str(&self) -> (name: Option<&'static str>) {
        match Self::from_code(self.code()) {
            Self::ChangeCipherSpec => Some("ChangeCipherSpec"),
            Self::Alert => Some("Alert"),
            Self::Handshake => Some("Handshake"),
            Self::ApplicationData => Some("ApplicationData"),
            Self::Heartbeat => Some("Heartbeat"),
            Self::Unknown(_) => None,
        }
    }

    fn quiet(&self) -> (quiet: bool) {
        false
    }
}

impl From<u8> for ContentType {
    fn from(code: u8) -> (v: Self) {
        Self::from_code(code)
    }
}

impl FromSpecImpl<u8> for ContentType {
    open spec fn obeys_from_spec() -> bool {
        true
    }

    open spec fn from_spec(code: u8) -> Self {
        Self::spec_from_code(code)
    }
}

impl From<ContentType> for u8 {
    fn from(value: ContentType) -> (code: Self) {
        value.code()
    }
}

impl FromSpecImpl<ContentType> for u8 {
    open spec fn obeys_from_spec() -> bool {
        true
    }

    open spec fn from_spec(value: ContentType) -> Self {
        value.spec_code()
    }
}

/// Two values are equal when they stand for the same code.
impl PartialEq for ContentType {
    fn eq(&self, other: &Self) -> (equal: bool) {
        self.code() == other.code()
    }
}

impl PartialEqSpecImpl for ContentType {
    open spec fn obeys_eq_spec() -> bool {
        true
    }

    open spec fn eq_spec(&self, other: &Self) -> bool {
        self.spec_code() == other.spec_code()
    }
}

impl Eq for ContentType {}

} // verus!
