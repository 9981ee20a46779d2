//! The registry of protocol versions.

use crate::registry::ProtocolEnum;
use vstd::prelude::*;
use vstd::std_specs::cmp::PartialEqSpecImpl;
use vstd::std_specs::convert::FromSpecImpl;

verus! {

/// A version of SSL, TLS or DTLS.
/// `Unknown` holds a code that has no name here.
#[allow(non_camel_case_types)]
#[non_exhaustive]
#[derive(Debug, Clone, Copy)]
pub enum ProtocolVersion {
    SSLv2,
    SSLv3,
    TLSv1_0,
    TLSv1_1,
    TLSv1_2,
    TLSv1_3,
    DTLSv1_0,
    DTLSv1_2,
    DTLSv1_3,
    Unknown(u16),
}

impl ProtocolEnum for ProtocolVersion {
    type Code = u16;

    open spec fn spec_registry() -> &'static str {
        "ProtocolVersion"
    }

    open spec fn spec_code(self) -> u16 {
        match self {
            Self::SSLv2 => 0x0002,
            Self::SSLv3 => 0x0300,
            Self::TLSv1_0 => 0x0301,
            Self::TLSv1_1 => 0x0302,
            Self::TLSv1_2 => 0x0303,
            Self::TLSv1_3 => 0x0304,
            Self::DTLSv1_0 => 0xfeff,
            Self::DTLSv1_2 => 0xfefd,
            Self::DTLSv1_3 => 0xfefc,
            Self::Unknown(code) => code,
        }
    }

    open spec fn spec_from_code(code: u16) -> Self {
        match code {
            0x0002 => Self::SSLv2,
            0x0300 => Self::SSLv3,
            0x0301 => Self::TLSv1_0,
            0x0302 => Self::TLSv1_1,
            0x0303 => Self::TLSv1_2,
            0x0304 => Self::TLSv1_3,
            0xfeff => Self::DTLSv1_0,
            0xfefd => Self::DTLSv1_2,
            0xfefc => Self::DTLSv1_3,
            _ => Self::Unknown(code),
        }
    }

    open spec fn spec_as_str(self) -> Option<&'static str> {
        match Self::spec_from_code(self.spec_code()) {
            Self::SSLv2 => Some("SSLv2"),
            Self::SSLv3 => Some("SSLv3"),
            Self::TLSv1_0 => Some("TLSv1_0"),
            Self::TLSv1_1 => Some("TLSv1_1"),
            Self::TLSv1_2 => Some("TLSv1_2"),
            Self::TLSv1_3 => Some("TLSv1_3"),
            Self::DTLSv1_0 => Some("DTLSv1_0"),
            Self::DTLSv1_2 => Some("DTLSv1_2"),
            Self::DTLSv1_3 => Some("DTLSv1_3"),
            Self::Unknown(_) => None,
        }
    }

    open spec fn spec_quiet(self) -> bool {
        false
    }

    proof fn lemma_code_of_decoded(code: u16) {
    }

    proof fn lemma_goes_by_code(a: Self, b: Self) {
    }

    fn registry() -> (name: &'static str) {
        "ProtocolVersion"
    }

    fn code(self) -> (code: u16) {
        match self {
            Self::SSLv2 => 0x0002,
            Self::SSLv3 => 0x0300,
            Self::TLSv1_0 => 0x0301,
            Self::TLSv1_1 => 0x0302,
            Self::TLSv1_2 => 0x0303,
            Self::TLSv1_3 => 0x0304,
            Self::DTLSv1_0 => 0xfeff,
            Self::DTLSv1_2 => 0xfefd,
            Self::DTLSv1_3 => 0xfefc,
            Self::Unknown(code) => code,
        }
    }

    fn from_code(code: u16) -> (v: Self) {
        match code {
            0x0002 => Self::SSLv2,
            0x0300 => Self::SSLv3,
            0x0301 => Self::TLSv1_0,
            0x0302 => Self::TLSv1_1,
            0x0303 => Self::TLSv1_2,
            0x0304 => Self::TLSv1_3,
            0xfeff => Self::DTLSv1_0,
            0xfefd => Self::DTLSv1_2,
            0xfefc => Self::DTLSv1_3,
            _ => Self::Unknown(code),
        }
    }

    fn as_str(&self) -> (name: Option<&'static str>) {
        match Self::from_code(self.code()) {
            Self::SSLv2 => Some("SSLv2"),
            Self::SSLv3 => Some("SSLv3"),
            Self::TLSv1_0 => Some("TLSv1_0"),
            Self::TLSv1_1 => Some("TLSv1_1"),
            Self::TLSv1_2 => Some("TLSv1_2"),
            Self::TLSv1_3 => Some("TLSv1_3"),
            Self::DTLSv1_0 => Some("DTLSv1_0"),
            Self::DTLSv1_2 => Some("DTLSv1_2"),
            Self::DTLSv1_3 => Some("DTLSv1_3"),
            Self::Unknown(_) => None,
        }
    }

    fn quiet(&self) -> (quiet: bool) {
        false
    }
}

impl From<u16> for ProtocolVersion {
    fn from(code: u16) -> (v: Self) {
        Self::from_code(code)
    }
}

impl FromSpecImpl<u16> for ProtocolVersion {
    open spec fn obeys_from_spec() -> bool {
        true
    }

    open spec fn from_spec(code: u16) -> Self {
        Self::spec_from_code(code)
    }
}

impl From<ProtocolVersion> for u16 {
    fn from(value: ProtocolVersion) -> (code: Self) {
        value.code()
    }
}

impl FromSpecImpl<ProtocolVersion> for u16 {
    open spec fn obeys_from_spec() -> bool {
        true
    }

    open spec fn from_spec(value: ProtocolVersion) -> Self {
        value.spec_code()
    }
}

/// Two values are equal when they stand for the same code.
impl PartialEq for ProtocolVersion {
    fn eq(&self, other: &Self) -> (equal: bool) {
        self.code() == other.code()
    }
}

impl PartialEqSpecImpl for ProtocolVersion {
    open spec fn obeys_eq_spec() -> bool {
        true
    }

    open spec fn eq_spec(&self, other: &Self) -> bool {
        self.spec_code() == other.spec_code()
    }
}

impl Eq for ProtocolVersion {}

} // verus!
