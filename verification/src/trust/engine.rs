//! The validation engine as this library sees it: the engine's types, which
//! are carried through unread, its errors in the library's own terms, and the
//! one engine routine that the library calls.
//!
//! Nothing in this file is proved of the engine. What is claimed of it is
//! said item by item.

use rustls_pki_types::{CertificateRevocationListDer, ServerName, UnixTime};
use vstd::prelude::*;
use vstd::string::StringExecFns;

verus! {

/// The engine's error, `webpki::Error`. Opaque here.
#[verifier::external_type_specification]
#[verifier::external_body]
pub struct ExEngineFault(webpki::Error);

/// A parsed revocation list, `webpki::CertRevocationList`. Opaque here.
#[verifier::external_type_specification]
#[verifier::external_body]
pub struct ExCertRevocationList<'a>(webpki::CertRevocationList<'a>);

/// An encoded revocation list, `rustls_pki_types::CertificateRevocationListDer`.
#[verifier::external_type_specification]
#[verifier::external_body]
pub struct ExCertificateRevocationListDer<'a>(rustls_pki_types::CertificateRevocationListDer<'a>);

/// A trust anchor, `rustls_pki_types::TrustAnchor`. Opaque here.
#[verifier::external_type_specification]
#[verifier::external_body]
pub struct ExTrustAnchor<'a>(rustls_pki_types::TrustAnchor<'a>);

/// A point in time, `rustls_pki_types::UnixTime`. Opaque here.
#[verifier::external_type_specification]
#[verifier::external_body]
pub struct ExUnixTime(rustls_pki_types::UnixTime);

/// The name a certificate was checked for, `rustls_pki_types::ServerName`.
/// Opaque here.
#[verifier::external_type_specification]
#[verifier::external_body]
pub struct ExServerName<'a>(rustls_pki_types::ServerName<'a>);

/// The kind of item after which the engine found trailing data,
/// `webpki::DerTypeId`. Opaque here.
#[verifier::external_type_specification]
#[verifier::external_body]
pub struct ExDerTypeId(webpki::DerTypeId);

/// `Clone` of the engine's error, which the engine derives: the copy is the
/// same error.
pub assume_specification[ <webpki::Error as Clone>::clone ](error: &webpki::Error) -> (copy:
    webpki::Error)
    ensures
        copy == *error,
;

/// `Clone` of the kind of an item, which is `Copy`: the copy is the same
/// kind.
pub assume_specification[ <webpki::DerTypeId as Clone>::clone ](id: &webpki::DerTypeId) -> (copy:
    webpki::DerTypeId)
    ensures
        copy == *id,
;

/// `Clone` of a point in time, which is `Copy`: the copy is the same time.
pub assume_specification[ <rustls_pki_types::UnixTime as Clone>::clone ](
    time: &rustls_pki_types::UnixTime,
) -> (copy: rustls_pki_types::UnixTime)
    ensures
        copy == *time,
;

/// `Clone` of a server name, which `rustls_pki_types` derives: the copy is
/// the same name.
pub assume_specification<'a>[ <rustls_pki_types::ServerName<'a> as Clone>::clone ](
    name: &rustls_pki_types::ServerName<'a>,
) -> (copy: rustls_pki_types::ServerName<'a>)
    ensures
        copy == *name,
;

/// The bytes that an encoded revocation list holds.
pub uninterp spec fn der_bytes(der: CertificateRevocationListDer<'_>) -> Seq<u8>;

/// What the engine makes of `der` when it is asked to parse it as a
/// revocation list: what `webpki::OwnedCertRevocationList::from_der` gives,
/// the list or the engine's error. The routine reads the bytes and nothing
/// else, so the same bytes give the same.
pub uninterp spec fn engine_parse(der: Seq<u8>) -> Result<
    webpki::CertRevocationList<'static>,
    webpki::Error,
>;

/// The engine's error as text: what the engine's own `Debug` writes for it,
/// which depends on the error alone.
pub uninterp spec fn engine_debug(error: webpki::Error) -> Seq<char>;

/// Whether the engine takes `der` for a revocation list that it can work
/// with.
pub open spec fn is_revocation_list(der: Seq<u8>) -> bool {
    engine_parse(der) is Ok
}

/// The bytes of an encoded revocation list, by its `AsRef<[u8]>`: the
/// result is the stored encoding, borrowed.
#[verifier::external_body]
pub(crate) fn der_as_ref<'a>(der: &'a CertificateRevocationListDer<'_>) -> (bytes: &'a [u8])
    ensures
        bytes@ == der_bytes(*der),
{
    der.as_ref()
}

/// Parses one encoded revocation list, by
/// `webpki::OwnedCertRevocationList::from_der`. The routine reads `der` and
/// nothing else; what comes back, list or error, is what `engine_parse`
/// stands for. Nothing is claimed of what the list holds or of which error
/// it is.
#[verifier::external_body]
pub(crate) fn revocation_list_from_der(der: &[u8]) -> (parsed: Result<
    webpki::CertRevocationList<'static>,
    webpki::Error,
>)
    ensures
        parsed == engine_parse(der@),
{
    webpki::OwnedCertRevocationList::from_der(der).map(Into::into)
}

/// An error of the engine, as far as this library tells the engine's errors
/// apart. The cases have the engine's names. Times, the expected name and
/// the names presented are carried as the engine gave them; key purposes are
/// object identifiers, arc by arc.
#[derive(Debug, Clone, PartialEq)]
pub enum EngineError {
    BadDer,
    BadDerTime,
    /// Trailing data after an item of the given kind.
    TrailingData(webpki::DerTypeId),
    CertNotValidYet { time: UnixTime, not_before: UnixTime },
    CertExpired { time: UnixTime, not_after: UnixTime },
    InvalidCertValidity,
    UnknownIssuer,
    CertNotValidForName { expected: ServerName<'static>, presented: Vec<String> },
    CertRevoked,
    UnknownRevocationStatus,
    CrlExpired { time: UnixTime, next_update: UnixTime },
    IssuerNotCrlSigner,
    InvalidSignatureForPublicKey,
    UnsupportedSignatureAlgorithm,
    UnsupportedSignatureAlgorithmForPublicKey,
    InvalidCrlSignatureForPublicKey,
    UnsupportedCrlSignatureAlgorithm,
    UnsupportedCrlSignatureAlgorithmForPublicKey,
    RequiredEkuNotFound,
    RequiredEkuNotFoundContext { required: Vec<usize>, present: Vec<Vec<usize>> },
    InvalidCrlNumber,
    InvalidSerialNumber,
    MalformedExtensions,
    UnsupportedCriticalExtension,
    UnsupportedCrlVersion,
    UnsupportedDeltaCrl,
    UnsupportedIndirectCrl,
    UnsupportedRevocationReason,
    /// Any error of the engine that has no case of its own above, as the
    /// engine gave it.
    Unlisted(webpki::Error),
}

/// The engine's error as text, by the engine's own `Debug`: the text is
/// what `engine_debug` stands for. Nothing is claimed of what it says.
#[verifier::external_body]
fn engine_error_text(error: &webpki::Error) -> (text: String)
    ensures
        text@ == engine_debug(*error),
{
    format!("{error:?}")
}

/// Tells apart the engine's errors on a certificate that carry no context;
/// `None` for every other error. Claimed: what comes back is one of the
/// cases that stand here, and no other.
#[allow(deprecated)]
#[verifier::external_body]
fn certificate_case(error: &webpki::Error) -> (case: Option<EngineError>)
    ensures
        case matches Some(listed) ==> listed.of_certificate(),
{
    match error {
        webpki::Error::BadDer => Some(EngineError::BadDer),
        webpki::Error::BadDerTime => Some(EngineError::BadDerTime),
        webpki::Error::TrailingData(id) => Some(EngineError::TrailingData(*id)),
        webpki::Error::InvalidCertValidity => Some(EngineError::InvalidCertValidity),
        webpki::Error::UnknownIssuer => Some(EngineError::UnknownIssuer),
        webpki::Error::CertRevoked => Some(EngineError::CertRevoked),
        webpki::Error::UnknownRevocationStatus => Some(EngineError::UnknownRevocationStatus),
        webpki::Error::InvalidSignatureForPublicKey => Some(EngineError::InvalidSignatureForPublicKey),
        webpki::Error::UnsupportedSignatureAlgorithm => Some(EngineError::UnsupportedSignatureAlgorithm),
        webpki::Error::UnsupportedSignatureAlgorithmForPublicKey => Some(EngineError::UnsupportedSignatureAlgorithmForPublicKey),
        webpki::Error::RequiredEkuNotFound => Some(EngineError::RequiredEkuNotFound),
        _ => None,
    }
}

/// Tells apart the engine's errors on a revocation list; `None` for every
/// other error. Claimed: what comes back is one of the cases that stand
/// here, and no other.
#[allow(deprecated)]
#[verifier::external_body]
fn revocation_list_case(error: &webpki::Error) -> (case: Option<EngineError>)
    ensures
        case matches Some(listed) ==> listed.of_revocation_list(),
{
    match error {
        webpki::Error::InvalidCrlSignatureForPublicKey => Some(EngineError::InvalidCrlSignatureForPublicKey),
        webpki::Error::UnsupportedCrlSignatureAlgorithm => Some(EngineError::UnsupportedCrlSignatureAlgorithm),
        webpki::Error::UnsupportedCrlSignatureAlgorithmForPublicKey => Some(EngineError::UnsupportedCrlSignatureAlgorithmForPublicKey),
        webpki::Error::IssuerNotCrlSigner => Some(EngineError::IssuerNotCrlSigner),
        webpki::Error::InvalidCrlNumber => Some(EngineError::InvalidCrlNumber),
        webpki::Error::InvalidSerialNumber => Some(EngineError::InvalidSerialNumber),
        webpki::Error::MalformedExtensions => Some(EngineError::MalformedExtensions),
        webpki::Error::UnsupportedCriticalExtension => Some(EngineError::UnsupportedCriticalExtension),
        webpki::Error::UnsupportedCrlVersion => Some(EngineError::UnsupportedCrlVersion),
        webpki::Error::UnsupportedDeltaCrl => Some(EngineError::UnsupportedDeltaCrl),
        webpki::Error::UnsupportedIndirectCrl => Some(EngineError::UnsupportedIndirectCrl),
        webpki::Error::UnsupportedRevocationReason => Some(EngineError::UnsupportedRevocationReason),
        _ => None,
    }
}

/// Tells apart the engine's errors that carry two times, and hands the
/// times on; `None` for every other error. Claimed: what comes back is one
/// of the cases that stand here, and no other.
#[verifier::external_body]
fn validity_case(error: &webpki::Error) -> (case: Option<EngineError>)
    ensures
        case matches Some(listed) ==> listed.of_validity(),
{
    match *error {
        webpki::Error::CertNotValidYet { time, not_before } => Some(EngineError::CertNotValidYet { time, not_before }),
        webpki::Error::CertExpired { time, not_after } => Some(EngineError::CertExpired { time, not_after }),
        webpki::Error::CrlExpired { time, next_update } => Some(EngineError::CrlExpired { time, next_update }),
        _ => None,
    }
}

/// Tells apart the engine's errors that carry names or key purposes, and
/// hands those on: the names as they are, the required purpose as the arcs
/// that `webpki::KeyUsage::oid_values` yields; `None` for every other error.
/// Claimed: what comes back is one of the cases that stand here, and no
/// other.
#[verifier::external_body]
fn context_case(error: &webpki::Error) -> (case: Option<EngineError>)
    ensures
        case matches Some(listed) ==> listed.of_context(),
{
    match error {
        webpki::Error::CertNotValidForName(context) => Some(EngineError::CertNotValidForName {
            expected: context.expected.clone(),
            presented: context.presented.clone(),
        }),
        webpki::Error::RequiredEkuNotFoundContext(context) => Some(EngineError::RequiredEkuNotFoundContext {
            required: context.required.oid_values().collect(),
            present: context.present.clone(),
        }),
        _ => None,
    }
}

impl EngineError {
    /// The engine's name for the case.
    pub open spec fn spec_name(&self) -> &'static str {
        match self {
            Self::BadDer => "BadDer",
            Self::BadDerTime => "BadDerTime",
            Self::TrailingData(_) => "TrailingData",
            Self::CertNotValidYet { .. } => "CertNotValidYet",
            Self::CertExpired { .. } => "CertExpired",
            Self::InvalidCertValidity => "InvalidCertValidity",
            Self::UnknownIssuer => "UnknownIssuer",
            Self::CertNotValidForName { .. } => "CertNotValidForName",
            Self::CertRevoked => "CertRevoked",
            Self::UnknownRevocationStatus => "UnknownRevocationStatus",
            Self::CrlExpired { .. } => "CrlExpired",
            Self::IssuerNotCrlSigner => "IssuerNotCrlSigner",
            Self::InvalidSignatureForPublicKey => "InvalidSignatureForPublicKey",
            Self::UnsupportedSignatureAlgorithm => "UnsupportedSignatureAlgorithm",
            Self::UnsupportedSignatureAlgorithmForPublicKey => "UnsupportedSignatureAlgorithmForPublicKey",
            Self::InvalidCrlSignatureForPublicKey => "InvalidCrlSignatureForPublicKey",
            Self::UnsupportedCrlSignatureAlgorithm => "UnsupportedCrlSignatureAlgorithm",
            Self::UnsupportedCrlSignatureAlgorithmForPublicKey => "UnsupportedCrlSignatureAlgorithmForPublicKey",
            Self::RequiredEkuNotFound => "RequiredEkuNotFound",
            Self::RequiredEkuNotFoundContext { .. } => "RequiredEkuNotFoundContext",
            Self::InvalidCrlNumber => "InvalidCrlNumber",
            Self::InvalidSerialNumber => "InvalidSerialNumber",
            Self::MalformedExtensions => "MalformedExtensions",
            Self::UnsupportedCriticalExtension => "UnsupportedCriticalExtension",
            Self::UnsupportedCrlVersion => "UnsupportedCrlVersion",
            Self::UnsupportedDeltaCrl => "UnsupportedDeltaCrl",
            Self::UnsupportedIndirectCrl => "UnsupportedIndirectCrl",
            Self::UnsupportedRevocationReason => "UnsupportedRevocationReason",
            Self::Unlisted(_) => "Unlisted",
        }
    }

    /// The engine's name for the case.
    pub fn name(&self) -> (name: &'static str)
        ensures
            name == self.spec_name(),
    {
        match self {
            Self::BadDer => "BadDer",
            Self::BadDerTime => "BadDerTime",
            Self::TrailingData(_) => "TrailingData",
            Self::CertNotValidYet { .. } => "CertNotValidYet",
            Self::CertExpired { .. } => "CertExpired",
            Self::InvalidCertValidity => "InvalidCertValidity",
            Self::UnknownIssuer => "UnknownIssuer",
            Self::CertNotValidForName { .. } => "CertNotValidForName",
            Self::CertRevoked => "CertRevoked",
            Self::UnknownRevocationStatus => "UnknownRevocationStatus",
            Self::CrlExpired { .. } => "CrlExpired",
            Self::IssuerNotCrlSigner => "IssuerNotCrlSigner",
            Self::InvalidSignatureForPublicKey => "InvalidSignatureForPublicKey",
            Self::UnsupportedSignatureAlgorithm => "UnsupportedSignatureAlgorithm",
            Self::UnsupportedSignatureAlgorithmForPublicKey => "UnsupportedSignatureAlgorithmForPublicKey",
            Self::InvalidCrlSignatureForPublicKey => "InvalidCrlSignatureForPublicKey",
            Self::UnsupportedCrlSignatureAlgorithm => "UnsupportedCrlSignatureAlgorithm",
            Self::UnsupportedCrlSignatureAlgorithmForPublicKey => "UnsupportedCrlSignatureAlgorithmForPublicKey",
            Self::RequiredEkuNotFound => "RequiredEkuNotFound",
            Self::RequiredEkuNotFoundContext { .. } => "RequiredEkuNotFoundContext",
            Self::InvalidCrlNumber => "InvalidCrlNumber",
            Self::InvalidSerialNumber => "InvalidSerialNumber",
            Self::MalformedExtensions => "MalformedExtensions",
            Self::UnsupportedCriticalExtension => "UnsupportedCriticalExtension",
            Self::UnsupportedCrlVersion => "UnsupportedCrlVersion",
            Self::UnsupportedDeltaCrl => "UnsupportedDeltaCrl",
            Self::UnsupportedIndirectCrl => "UnsupportedIndirectCrl",
            Self::UnsupportedRevocationReason => "UnsupportedRevocationReason",
            Self::Unlisted(_) => "Unlisted",
        }
    }

    /// The error as text: the engine's name for the case, or the engine's
    /// own words for an error that has no case here.
    pub open spec fn spec_describe(&self) -> Seq<char> {
        match self {
            Self::Unlisted(error) => engine_debug(*error),
            _ => self.spec_name()@,
        }
    }

    /// The error as text.
    pub fn describe(&self) -> (text: String)
        ensures
            text@ == self.spec_describe(),
    {
        match self {
            Self::Unlisted(error) => engine_error_text(error),
            _ => String::from_str(self.name()),
        }
    }

    /// An engine error in the library's terms: what `settle` makes of the
    /// four readings of the error. The readings are the engine's own case,
    /// read by trusted code, and cannot be named here; so the result is
    /// stated over readings that exist, and `settle` says the rest.
    pub fn read(error: webpki::Error) -> (read: EngineError)
        ensures
            Self::spec_reads(error, read),
            read matches EngineError::Unlisted(kept) ==> kept == error,
    {
        let certificate = certificate_case(&error);
        let revocation_list = revocation_list_case(&error);
        let validity = validity_case(&error);
        let context = context_case(&error);
        Self::settle(certificate, revocation_list, validity, context, error)
    }

    /// Whether the case is one that an error on a certificate without
    /// context is read as.
    pub open spec fn of_certificate(&self) -> bool {
        ||| self is BadDer
        ||| self is BadDerTime
        ||| self is TrailingData
        ||| self is InvalidCertValidity
        ||| self is UnknownIssuer
        ||| self is CertRevoked
        ||| self is UnknownRevocationStatus
        ||| self is InvalidSignatureForPublicKey
        ||| self is UnsupportedSignatureAlgorithm
        ||| self is UnsupportedSignatureAlgorithmForPublicKey
        ||| self is RequiredEkuNotFound
    }

    /// Whether the case is one that an error on a revocation list is read
    /// as.
    pub open spec fn of_revocation_list(&self) -> bool {
        ||| self is InvalidCrlSignatureForPublicKey
        ||| self is UnsupportedCrlSignatureAlgorithm
        ||| self is UnsupportedCrlSignatureAlgorithmForPublicKey
        ||| self is IssuerNotCrlSigner
        ||| self is InvalidCrlNumber
        ||| self is InvalidSerialNumber
        ||| self is MalformedExtensions
        ||| self is UnsupportedCriticalExtension
        ||| self is UnsupportedCrlVersion
        ||| self is UnsupportedDeltaCrl
        ||| self is UnsupportedIndirectCrl
        ||| self is UnsupportedRevocationReason
    }

    /// Whether the case is one that an error with two times is read as.
    pub open spec fn of_validity(&self) -> bool {
        ||| self is CertNotValidYet
        ||| self is CertExpired
        ||| self is CrlExpired
    }

    /// Whether the case is one that an error with names or key purposes is
    /// read as.
    pub open spec fn of_context(&self) -> bool {
        ||| self is CertNotValidForName
        ||| self is RequiredEkuNotFoundContext
    }

    /// Whether `case` can be what `error` is read as: what `settle` makes
    /// of four readings of it, each of which gives no case or one of its
    /// own kind.
    pub open spec fn spec_reads(error: webpki::Error, case: EngineError) -> bool {
        exists|
            certificate: Option<EngineError>,
            revocation_list: Option<EngineError>,
            validity: Option<EngineError>,
            context: Option<EngineError>,
        |
            {
                &&& certificate matches Some(listed) ==> listed.of_certificate()
                &&& revocation_list matches Some(listed) ==> listed.of_revocation_list()
                &&& validity matches Some(listed) ==> listed.of_validity()
                &&& context matches Some(listed) ==> listed.of_context()
                &&& case == #[trigger] Self::spec_settle(
                    certificate,
                    revocation_list,
                    validity,
                    context,
                    error,
                )
            }
    }

    /// What an engine error is read as is one of the listed cases, or the
    /// error itself kept whole, and no other error.
    pub proof fn lemma_reads(error: webpki::Error, case: EngineError)
        requires
            Self::spec_reads(error, case),
        ensures
            case is Unlisted <==> case == EngineError::Unlisted(error),
            !(case is Unlisted) <==> (case.of_certificate() || case.of_revocation_list()
                || case.of_validity() || case.of_context()),
    {
    }

    /// The case that the readings of one engine error come to: the first
    /// reading that gives a case, taken in the order in which they stand
    /// here; and `error` itself, kept whole as `Unlisted`, where none does.
    pub open spec fn spec_settle(
        certificate: Option<EngineError>,
        revocation_list: Option<EngineError>,
        validity: Option<EngineError>,
        context: Option<EngineError>,
        error: webpki::Error,
    ) -> EngineError {
        match (certificate, revocation_list, validity, context) {
            (Some(case), _, _, _) => case,
            (None, Some(case), _, _) => case,
            (None, None, Some(case), _) => case,
            (None, None, None, Some(case)) => case,
            (None, None, None, None) => EngineError::Unlisted(error),
        }
    }

    /// Settles on one case for an engine error, given what each of the four
    /// readings of it gave.
    pub fn settle(
        certificate: Option<EngineError>,
        revocation_list: Option<EngineError>,
        validity: Option<EngineError>,
        context: Option<EngineError>,
        error: webpki::Error,
    ) -> (case: EngineError)
        ensures
            case == Self::spec_settle(certificate, revocation_list, validity, context, error),
    {
        if let Some(case) = certificate {
            return case;
        }
        if let Some(case) = revocation_list {
            return case;
        }
        if let Some(case) = validity {
            return case;
        }
        if let Some(case) = context {
            return case;
        }
        EngineError::Unlisted(error)
    }
}

} // verus!
