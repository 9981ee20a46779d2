//! The errors that a trust decision ends in.

use crate::codec::InvalidMessage;
use crate::trust::engine::EngineError;
use rustls_pki_types::{ServerName, UnixTime};
use vstd::prelude::*;
use vstd::slice::slice_to_vec;
use vstd::std_specs::convert::FromSpecImpl;
use vstd::string::StringExecFns;

verus! {

/// An error of the engine that has no report of its own. It is kept whole
/// for diagnostics and can be shown as text; it is not meant to be looked
/// into.
#[derive(Debug, Clone, PartialEq)]
pub struct OtherError(EngineError);

impl OtherError {
    /// The error that `error` is kept as.
    pub closed spec fn spec_new(error: EngineError) -> OtherError {
        OtherError(error)
    }

    /// The error that is kept.
    pub closed spec fn spec_source(&self) -> EngineError {
        self.0
    }

    /// What is kept is what was handed in, and nothing else tells two kept
    /// errors apart.
    pub proof fn lemma_source(error: EngineError, other: OtherError)
        ensures
            Self::spec_new(error).spec_source() == error,
            Self::spec_new(other.spec_source()) == other,
    {
    }

    /// Keeps `error` for diagnostics.
    pub fn new(error: EngineError) -> (other: OtherError)
        ensures
            other == Self::spec_new(error),
    {
        OtherError(error)
    }

    /// The error as text: the engine's name for it, or the engine's own
    /// words where the library has no case for it.
    pub fn describe(&self) -> (text: String)
        ensures
            text@ == self.spec_source().spec_describe(),
    {
        self.0.describe()
    }
}

/// The object identifier of client authentication, 1.3.6.1.5.5.7.3.2.
pub open spec fn client_auth_oid() -> Seq<usize> {
    seq![1, 3, 6, 1, 5, 5, 7, 3, 2]
}

/// The object identifier of server authentication, 1.3.6.1.5.5.7.3.1.
pub open spec fn server_auth_oid() -> Seq<usize> {
    seq![1, 3, 6, 1, 5, 5, 7, 3, 1]
}

/// What a key may be used for, as an extended key usage extension says it.
#[derive(Debug, Clone, PartialEq)]
pub enum ExtendedKeyPurpose {
    /// Client authentication.
    ClientAuth,
    /// Server authentication.
    ServerAuth,
    /// Another purpose, by its object identifier, arc by arc.
    Other(Vec<usize>),
}

impl ExtendedKeyPurpose {
    /// The purpose's object identifier.
    pub open spec fn spec_oid(&self) -> Seq<usize> {
        match self {
            Self::ClientAuth => client_auth_oid(),
            Self::ServerAuth => server_auth_oid(),
            Self::Other(values) => values@,
        }
    }

    /// Whether `self` is how the object identifier `values` is kept: the
    /// two purposes that TLS asks for by name, every other one as `Other`
    /// with its arcs.
    pub open spec fn stands_for(&self, values: Seq<usize>) -> bool {
        &&& self.spec_oid() == values
        &&& self is ClientAuth <==> values == client_auth_oid()
        &&& self is ServerAuth <==> values == server_auth_oid()
    }

    /// The purpose that an object identifier names.
    pub fn for_values(values: &[usize]) -> (purpose: Self)
        ensures
            purpose.stands_for(values@),
    {
        if values.len() == 9 && values[0] == 1 && values[1] == 3 && values[2] == 6 && values[3]
            == 1 && values[4] == 5 && values[5] == 5 && values[6] == 7 && values[7] == 3 {
            if values[8] == 2 {
                assert(values@ =~= client_auth_oid());
                return Self::ClientAuth;
            }
            if values[8] == 1 {
                assert(values@ =~= server_auth_oid());
                return Self::ServerAuth;
            }
        }
        assert(values@ != client_auth_oid()) by {
            if values@ == client_auth_oid() {
                assert(client_auth_oid().len() == 9);
                assert(client_auth_oid()[8] == 2);
            }
        }
        assert(values@ != server_auth_oid()) by {
            if values@ == server_auth_oid() {
                assert(server_auth_oid().len() == 9);
                assert(server_auth_oid()[8] == 1);
            }
        }
        Self::Other(slice_to_vec(values))
    }
}

/// Why a certificate was not accepted.
#[non_exhaustive]
#[derive(Debug, Clone, PartialEq)]
pub enum CertificateError {
    /// The certificate is not correctly encoded.
    BadEncoding,
    /// The certificate's validity period is itself not valid, or has run
    /// out and no more is known.
    Expired,
    /// The certificate has expired: `time`, the time of the check, is after
    /// `not_after`.
    ExpiredContext { time: UnixTime, not_after: UnixTime },
    /// The certificate is not valid yet: `time`, the time of the check, is
    /// before `not_before`.
    NotValidYetContext { time: UnixTime, not_before: UnixTime },
    /// The certificate, or one of its issuers, has been revoked.
    Revoked,
    /// No chain from the certificate to a trust anchor was found.
    UnknownIssuer,
    /// Whether the certificate has been revoked could not be found out.
    UnknownRevocationStatus,
    /// The revocation list for the certificate is out of date: `time`, the
    /// time of the check, is not before `next_update`.
    ExpiredRevocationListContext { time: UnixTime, next_update: UnixTime },
    /// A signature in the chain does not verify.
    BadSignature,
    /// A signature in the chain uses an algorithm that is not supported, or
    /// one that does not go with the key.
    UnsupportedSignatureAlgorithm,
    /// The certificate is not valid for `expected`; it names `presented`.
    NotValidForNameContext { expected: ServerName<'static>, presented: Vec<String> },
    /// The certificate is not meant for the purpose it was presented for.
    InvalidPurpose,
    /// The certificate is not meant for the purpose `required`; it lists
    /// `presented`.
    InvalidPurposeContext { required: ExtendedKeyPurpose, presented: Vec<ExtendedKeyPurpose> },
    /// Any other error of the engine.
    Other(OtherError),
}

/// Why a revocation list was not accepted.
#[non_exhaustive]
#[derive(Debug, Clone, PartialEq)]
pub enum CertRevocationListError {
    /// The list's signature does not verify.
    BadSignature,
    /// The list's signature uses an algorithm that is not supported, or one
    /// that does not go with the issuer's key.
    UnsupportedSignatureAlgorithm,
    /// The list's number is not valid.
    InvalidCrlNumber,
    /// The serial number of a revoked certificate is not valid.
    InvalidRevokedCertSerialNumber,
    /// The issuer of the list is not allowed to sign revocation lists.
    IssuerInvalidForCrl,
    /// Any other error of the engine.
    Other(OtherError),
    /// The list is not correctly encoded.
    ParseError,
    /// The list is of a version that is not supported.
    UnsupportedCrlVersion,
    /// The list has a critical extension that is not supported.
    UnsupportedCriticalExtension,
    /// The list is a delta list, which is not supported.
    UnsupportedDeltaCrl,
    /// The list is an indirect list, which is not supported.
    UnsupportedIndirectCrl,
    /// The list gives a reason for a revocation that is not supported.
    UnsupportedRevocationReason,
}

impl CertRevocationListError {
    /// The name of the case.
    pub open spec fn spec_name(&self) -> &'static str {
        match self {
            Self::BadSignature => "BadSignature",
            Self::UnsupportedSignatureAlgorithm => "UnsupportedSignatureAlgorithm",
            Self::InvalidCrlNumber => "InvalidCrlNumber",
            Self::InvalidRevokedCertSerialNumber => "InvalidRevokedCertSerialNumber",
            Self::IssuerInvalidForCrl => "IssuerInvalidForCrl",
            Self::Other(_) => "Other",
            Self::ParseError => "ParseError",
            Self::UnsupportedCrlVersion => "UnsupportedCrlVersion",
            Self::UnsupportedCriticalExtension => "UnsupportedCriticalExtension",
            Self::UnsupportedDeltaCrl => "UnsupportedDeltaCrl",
            Self::UnsupportedIndirectCrl => "UnsupportedIndirectCrl",
            Self::UnsupportedRevocationReason => "UnsupportedRevocationReason",
        }
    }

    /// The error as text: the name of the case, and for `Other` what is
    /// kept, as text, in brackets after it.
    pub open spec fn spec_describe(&self) -> Seq<char> {
        match self {
            Self::Other(other) => self.spec_name()@ + "(OtherError("@
                + other.spec_source().spec_describe() + "))"@,
            _ => self.spec_name()@,
        }
    }

    /// The name of the case.
    pub fn name(&self) -> (name: &'static str)
        ensures
            name == self.spec_name(),
    {
        match self {
            Self::BadSignature => "BadSignature",
            Self::UnsupportedSignatureAlgorithm => "UnsupportedSignatureAlgorithm",
            Self::InvalidCrlNumber => "InvalidCrlNumber",
            Self::InvalidRevokedCertSerialNumber => "InvalidRevokedCertSerialNumber",
            Self::IssuerInvalidForCrl => "IssuerInvalidForCrl",
            Self::Other(_) => "Other",
            Self::ParseError => "ParseError",
            Self::UnsupportedCrlVersion => "UnsupportedCrlVersion",
            Self::UnsupportedCriticalExtension => "UnsupportedCriticalExtension",
            Self::UnsupportedDeltaCrl => "UnsupportedDeltaCrl",
            Self::UnsupportedIndirectCrl => "UnsupportedIndirectCrl",
            Self::UnsupportedRevocationReason => "UnsupportedRevocationReason",
        }
    }

    /// The error as text.
    pub fn describe(&self) -> (text: String)
        ensures
            text@ == self.spec_describe(),
    {
        let mut text = String::from_str(self.name());
        if let Self::Other(other) = self {
            let detail = other.describe();
            text.append("(OtherError(");
            text.append(detail.as_str());
            text.append("))");
            assert(text@ == self.spec_name()@ + "(OtherError("@ + detail@ + "))"@);
            assert(text@ == self.spec_describe());
        }
        text
    }
}

/// What this library reports.
#[non_exhaustive]
#[derive(Debug, Clone, PartialEq)]
pub enum TlsError {
    /// A message could not be decoded.
    InvalidMessage(InvalidMessage),
    /// A certificate was not accepted.
    InvalidCertificate(CertificateError),
    /// A revocation list was not accepted.
    InvalidCertRevocationList(CertRevocationListError),
}

impl From<InvalidMessage> for TlsError {
    fn from(error: InvalidMessage) -> (r: Self) {
        Self::InvalidMessage(error)
    }
}

impl FromSpecImpl<InvalidMessage> for TlsError {
    open spec fn obeys_from_spec() -> bool {
        true
    }

    open spec fn from_spec(error: InvalidMessage) -> Self {
        Self::InvalidMessage(error)
    }
}

impl From<CertificateError> for TlsError {
    fn from(error: CertificateError) -> (r: Self) {
        Self::InvalidCertificate(error)
    }
}

impl FromSpecImpl<CertificateError> for TlsError {
    open spec fn obeys_from_spec() -> bool {
        true
    }

    open spec fn from_spec(error: CertificateError) -> Self {
        Self::InvalidCertificate(error)
    }
}

impl From<CertRevocationListError> for TlsError {
    fn from(error: CertRevocationListError) -> (r: Self) {
        Self::InvalidCertRevocationList(error)
    }
}

impl FromSpecImpl<CertRevocationListError> for TlsError {
    open spec fn obeys_from_spec() -> bool {
        true
    }

    open spec fn from_spec(error: CertRevocationListError) -> Self {
        Self::InvalidCertRevocationList(error)
    }
}

} // verus!
