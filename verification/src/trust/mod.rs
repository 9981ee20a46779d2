//! Trust decisions: what the engine's errors mean to a TLS stack, loading
//! revocation lists, and building a verifier.

pub mod anchors;
pub mod builder;
pub mod engine;

use crate::error::{
    CertRevocationListError, CertificateError, ExtendedKeyPurpose, OtherError, TlsError,
};
use engine::{
    der_as_ref, der_bytes, engine_parse, is_revocation_list, revocation_list_from_der,
    EngineError,
};
use rustls_pki_types::CertificateRevocationListDer;
use vstd::prelude::*;
use vstd::std_specs::convert::FromSpecImpl;
use vstd::string::StringExecFns;
use webpki::CertRevocationList;

verus! {

/// An error that can occur when building a certificate verifier.
#[non_exhaustive]
#[derive(Debug, Clone)]
pub enum VerifierBuilderError {
    /// No root trust anchors were provided.
    NoRootAnchors,
    /// A provided CRL could not be parsed.
    InvalidCrl(CertRevocationListError),
}

impl From<CertRevocationListError> for VerifierBuilderError {
    fn from(value: CertRevocationListError) -> (error: Self) {
        Self::InvalidCrl(value)
    }
}

impl FromSpecImpl<CertRevocationListError> for VerifierBuilderError {
    open spec fn obeys_from_spec() -> bool {
        true
    }

    open spec fn from_spec(value: CertRevocationListError) -> Self {
        Self::InvalidCrl(value)
    }
}

impl VerifierBuilderError {
    /// The message for the error.
    pub open spec fn spec_to_string(&self) -> Seq<char> {
        match self {
            Self::NoRootAnchors => "no root trust anchors were provided"@,
            Self::InvalidCrl(e) => "provided CRL could not be parsed: "@ + e.spec_describe(),
        }
    }

    /// The message for the error.
    pub fn to_string(&self) -> (text: String)
        ensures
            text@ == self.spec_to_string(),
    {
        match self {
            Self::NoRootAnchors => String::from_str("no root trust anchors were provided"),
            Self::InvalidCrl(e) => {
                let reason = e.describe();
                let mut text = String::from_str("provided CRL could not be parsed: ");
                text.append(reason.as_str());
                text
            },
        }
    }
}

/// Whether `presented` holds the purposes that the object identifiers in
/// `present` name, one for one and in the same order.
pub open spec fn purposes_stand_for(
    presented: Seq<ExtendedKeyPurpose>,
    present: Seq<Vec<usize>>,
) -> bool {
    &&& presented.len() == present.len()
    &&& forall|i: int| 0 <= i < present.len() ==> (#[trigger] presented[i]).stands_for(present[i]@)
}

/// What an error of the engine means for a certificate: whether `result` is
/// the report for `error`. Each error has one report. What the engine found
/// (times, names, key purposes) is handed on in it; an error on a revocation
/// list is reported as such; and an error that has no report of its own is
/// kept whole under `Other`.
pub open spec fn pki_error_is(error: EngineError, result: TlsError) -> bool {
    match error {
        EngineError::BadDer | EngineError::BadDerTime | EngineError::TrailingData(_) => result
            == TlsError::InvalidCertificate(CertificateError::BadEncoding),
        EngineError::CertNotValidYet { time, not_before } => result == TlsError::InvalidCertificate(
            CertificateError::NotValidYetContext { time, not_before },
        ),
        EngineError::CertExpired { time, not_after } => result == TlsError::InvalidCertificate(
            CertificateError::ExpiredContext { time, not_after },
        ),
        EngineError::InvalidCertValidity => result == TlsError::InvalidCertificate(
            CertificateError::Expired,
        ),
        EngineError::UnknownIssuer => result == TlsError::InvalidCertificate(
            CertificateError::UnknownIssuer,
        ),
        EngineError::CertNotValidForName { expected, presented } => result
            == TlsError::InvalidCertificate(
            CertificateError::NotValidForNameContext { expected, presented },
        ),
        EngineError::CertRevoked => result == TlsError::InvalidCertificate(
            CertificateError::Revoked,
        ),
        EngineError::UnknownRevocationStatus => result == TlsError::InvalidCertificate(
            CertificateError::UnknownRevocationStatus,
        ),
        EngineError::CrlExpired { time, next_update } => result == TlsError::InvalidCertificate(
            CertificateError::ExpiredRevocationListContext { time, next_update },
        ),
        EngineError::IssuerNotCrlSigner => result == TlsError::InvalidCertRevocationList(
            CertRevocationListError::IssuerInvalidForCrl,
        ),
        EngineError::InvalidSignatureForPublicKey => result == TlsError::InvalidCertificate(
            CertificateError::BadSignature,
        ),
        EngineError::UnsupportedSignatureAlgorithm
        | EngineError::UnsupportedSignatureAlgorithmForPublicKey => result
            == TlsError::InvalidCertificate(CertificateError::UnsupportedSignatureAlgorithm),
        EngineError::InvalidCrlSignatureForPublicKey => result
            == TlsError::InvalidCertRevocationList(CertRevocationListError::BadSignature),
        EngineError::UnsupportedCrlSignatureAlgorithm
        | EngineError::UnsupportedCrlSignatureAlgorithmForPublicKey => result
            == TlsError::InvalidCertRevocationList(
            CertRevocationListError::UnsupportedSignatureAlgorithm,
        ),
        EngineError::RequiredEkuNotFound => result == TlsError::InvalidCertificate(
            CertificateError::InvalidPurpose,
        ),
        EngineError::RequiredEkuNotFoundContext { required, present } => {
            &&& result matches TlsError::InvalidCertificate(
                CertificateError::InvalidPurposeContext { required: purpose, presented },
            )
            &&& purpose.stands_for(required@)
            &&& purposes_stand_for(presented@, present@)
        },
        _ => result == TlsError::InvalidCertificate(
            CertificateError::Other(OtherError::spec_new(error)),
        ),
    }
}

/// What an error of the engine means for a revocation list. Each error has
/// one report; an error that has none of its own is kept whole under
/// `Other`.
pub open spec fn spec_crl_error(error: EngineError) -> CertRevocationListError {
    match error {
        EngineError::InvalidCrlSignatureForPublicKey => CertRevocationListError::BadSignature,
        EngineError::UnsupportedCrlSignatureAlgorithm
        | EngineError::UnsupportedCrlSignatureAlgorithmForPublicKey =>
            CertRevocationListError::UnsupportedSignatureAlgorithm,
        EngineError::InvalidCrlNumber => CertRevocationListError::InvalidCrlNumber,
        EngineError::InvalidSerialNumber => CertRevocationListError::InvalidRevokedCertSerialNumber,
        EngineError::IssuerNotCrlSigner => CertRevocationListError::IssuerInvalidForCrl,
        EngineError::MalformedExtensions | EngineError::BadDer | EngineError::BadDerTime =>
            CertRevocationListError::ParseError,
        EngineError::UnsupportedCriticalExtension =>
            CertRevocationListError::UnsupportedCriticalExtension,
        EngineError::UnsupportedCrlVersion => CertRevocationListError::UnsupportedCrlVersion,
        EngineError::UnsupportedDeltaCrl => CertRevocationListError::UnsupportedDeltaCrl,
        EngineError::UnsupportedIndirectCrl => CertRevocationListError::UnsupportedIndirectCrl,
        EngineError::UnsupportedRevocationReason =>
            CertRevocationListError::UnsupportedRevocationReason,
        _ => CertRevocationListError::Other(OtherError::spec_new(error)),
    }
}

/// Each error of the engine has one report for a certificate, and no more.
/// For the error that carries key purposes the two reports are the same case
/// and name the same purposes, identifier by identifier; for every other
/// error they are the same value.
pub proof fn lemma_one_certificate_report(error: EngineError, a: TlsError, b: TlsError)
    requires
        pki_error_is(error, a),
        pki_error_is(error, b),
    ensures
        !(error is RequiredEkuNotFoundContext) ==> a == b,
        error is RequiredEkuNotFoundContext ==> {
            &&& a matches TlsError::InvalidCertificate(
                CertificateError::InvalidPurposeContext { required: ra, presented: pa },
            )
            &&& b matches TlsError::InvalidCertificate(
                CertificateError::InvalidPurposeContext { required: rb, presented: pb },
            )
            &&& ra.spec_oid() == rb.spec_oid()
            &&& pa@.len() == pb@.len()
            &&& forall|i: int| 0 <= i < pa@.len() ==> pa@[i].spec_oid() == pb@[i].spec_oid()
        },
{
}

/// The report for an error that the engine gave on a certificate.
pub fn pki_error(error: EngineError) -> (result: TlsError)
    ensures
        pki_error_is(error, result),
{
    match error {
        EngineError::BadDer | EngineError::BadDerTime | EngineError::TrailingData(_) => {
            TlsError::from(CertificateError::BadEncoding)
        },
        EngineError::CertNotValidYet { time, not_before } => {
            TlsError::from(CertificateError::NotValidYetContext { time, not_before })
        },
        EngineError::CertExpired { time, not_after } => {
            TlsError::from(CertificateError::ExpiredContext { time, not_after })
        },
        EngineError::InvalidCertValidity => TlsError::from(CertificateError::Expired),
        EngineError::UnknownIssuer => TlsError::from(CertificateError::UnknownIssuer),
        EngineError::CertNotValidForName { expected, presented } => {
            TlsError::from(CertificateError::NotValidForNameContext { expected, presented })
        },
        EngineError::CertRevoked => TlsError::from(CertificateError::Revoked),
        EngineError::UnknownRevocationStatus => {
            TlsError::from(CertificateError::UnknownRevocationStatus)
        },
        EngineError::CrlExpired { time, next_update } => {
            TlsError::from(CertificateError::ExpiredRevocationListContext { time, next_update })
        },
        EngineError::IssuerNotCrlSigner => {
            TlsError::from(CertRevocationListError::IssuerInvalidForCrl)
        },
        EngineError::InvalidSignatureForPublicKey => TlsError::from(CertificateError::BadSignature),
        EngineError::UnsupportedSignatureAlgorithm
        | EngineError::UnsupportedSignatureAlgorithmForPublicKey => {
            TlsError::from(CertificateError::UnsupportedSignatureAlgorithm)
        },
        EngineError::InvalidCrlSignatureForPublicKey => {
            TlsError::from(CertRevocationListError::BadSignature)
        },
        EngineError::UnsupportedCrlSignatureAlgorithm
        | EngineError::UnsupportedCrlSignatureAlgorithmForPublicKey => {
            TlsError::from(CertRevocationListError::UnsupportedSignatureAlgorithm)
        },
        EngineError::RequiredEkuNotFound => TlsError::from(CertificateError::InvalidPurpose),
        EngineError::RequiredEkuNotFoundContext { required, present } => {
            let purpose = ExtendedKeyPurpose::for_values(required.as_slice());
            let mut presented: Vec<ExtendedKeyPurpose> = Vec::new();
            let mut i: usize = 0;
            while i < present.len()
                invariant
                    i <= present@.len(),
                    purposes_stand_for(presented@, present@.take(i as int)),
                decreases present@.len() - i,
            {
                presented.push(ExtendedKeyPurpose::for_values(present[i].as_slice()));
                i += 1;
            }
            assert(present@.take(i as int) =~= present@);
            TlsError::from(CertificateError::InvalidPurposeContext { required: purpose, presented })
        },
        other => TlsError::from(CertificateError::Other(OtherError::new(other))),
    }
}

/// The report for an error that the engine gave on a revocation list.
pub fn crl_error(e: EngineError) -> (result: CertRevocationListError)
    ensures
        result == spec_crl_error(e),
{
    match e {
        EngineError::InvalidCrlSignatureForPublicKey => CertRevocationListError::BadSignature,
        EngineError::UnsupportedCrlSignatureAlgorithm
        | EngineError::UnsupportedCrlSignatureAlgorithmForPublicKey => {
            CertRevocationListError::UnsupportedSignatureAlgorithm
        },
        EngineError::InvalidCrlNumber => CertRevocationListError::InvalidCrlNumber,
        EngineError::InvalidSerialNumber => CertRevocationListError::InvalidRevokedCertSerialNumber,
        EngineError::IssuerNotCrlSigner => CertRevocationListError::IssuerInvalidForCrl,
        EngineError::MalformedExtensions | EngineError::BadDer | EngineError::BadDerTime => {
            CertRevocationListError::ParseError
        },
        EngineError::UnsupportedCriticalExtension => {
            CertRevocationListError::UnsupportedCriticalExtension
        },
        EngineError::UnsupportedCrlVersion => CertRevocationListError::UnsupportedCrlVersion,
        EngineError::UnsupportedDeltaCrl => CertRevocationListError::UnsupportedDeltaCrl,
        EngineError::UnsupportedIndirectCrl => CertRevocationListError::UnsupportedIndirectCrl,
        EngineError::UnsupportedRevocationReason => {
            CertRevocationListError::UnsupportedRevocationReason
        },
        other => CertRevocationListError::Other(OtherError::new(other)),
    }
}

/// What the engine made of one encoded revocation list: the parsed list, or
/// the engine's error.
pub type Parsed = Result<CertRevocationList<'static>, EngineError>;

/// Whether `k` is the place of the first failure in `outcomes`.
pub open spec fn first_failure_at(outcomes: Seq<Parsed>, k: int) -> bool {
    &&& 0 <= k < outcomes.len()
    &&& outcomes[k] is Err
    &&& forall|j: int| 0 <= j < k ==> (#[trigger] outcomes[j]) is Ok
}

/// Whether every outcome is a parsed list.
pub open spec fn all_parsed(outcomes: Seq<Parsed>) -> bool {
    forall|i: int| 0 <= i < outcomes.len() ==> (#[trigger] outcomes[i]) is Ok
}

/// What loading ends in: the parsed lists, or one report.
pub type Loaded = Result<Seq<CertRevocationList<'static>>, CertRevocationListError>;

/// The result of loading, with the lists as a sequence.
pub open spec fn loaded(
    result: Result<Vec<CertRevocationList<'static>>, CertRevocationListError>,
) -> Loaded {
    match result {
        Ok(lists) => Ok(lists@),
        Err(e) => Err(e),
    }
}

/// Whether `result` is what loading comes to when the engine's outcomes,
/// buffer by buffer, are `outcomes`. Where every buffer parsed, it is all
/// the parsed lists, as many as there are buffers and in their order. Where
/// buffer `k` is the first that failed, it is the report for that failure
/// and nothing else: no list is handed out, and what the later buffers came
/// to plays no part.
pub open spec fn loads_as(outcomes: Seq<Parsed>, result: Loaded) -> bool {
    &&& result is Ok <==> all_parsed(outcomes)
    &&& result matches Ok(lists) ==> {
        &&& lists.len() == outcomes.len()
        &&& forall|i: int|
            0 <= i < outcomes.len() ==> (#[trigger] outcomes[i]) == Ok::<
                CertRevocationList<'static>,
                EngineError,
            >(lists[i])
    }
    &&& result matches Err(e) ==> exists|k: int| #[trigger]
        first_failure_at(outcomes, k) && e == spec_crl_error(outcomes[k]->Err_0)
    &&& forall|k: int| #[trigger]
        first_failure_at(outcomes, k) ==> result == Err::<
            Seq<CertRevocationList<'static>>,
            CertRevocationListError,
        >(spec_crl_error(outcomes[k]->Err_0))
}

/// Whether the engine takes every buffer of `crls` for a revocation list.
pub open spec fn all_revocation_lists(crls: Seq<CertificateRevocationListDer<'_>>) -> bool {
    forall|i: int| 0 <= i < crls.len() ==> is_revocation_list(der_bytes(#[trigger] crls[i]))
}

/// Whether buffer `k` is the first of `crls` that the engine refuses.
pub open spec fn first_refused_at(crls: Seq<CertificateRevocationListDer<'_>>, k: int) -> bool {
    &&& 0 <= k < crls.len()
    &&& !is_revocation_list(der_bytes(crls[k]))
    &&& forall|j: int| 0 <= j < k ==> is_revocation_list(der_bytes(#[trigger] crls[j]))
}

/// Whether `report` is a report for the engine's error `error` on a
/// revocation list: the report for a case that the error is read as.
pub open spec fn reports(error: webpki::Error, report: CertRevocationListError) -> bool {
    exists|case: EngineError| #[trigger]
        EngineError::spec_reads(error, case) && report == spec_crl_error(case)
}

/// Whether `outcome` is the outcome for the bytes `der`: the list that the
/// engine parses from them, or a case that the engine's error on them is
/// read as.
pub open spec fn outcome_of(der: Seq<u8>, outcome: Parsed) -> bool {
    match engine_parse(der) {
        Ok(list) => outcome == Ok::<CertRevocationList<'static>, EngineError>(list),
        Err(error) => outcome matches Err(case) && EngineError::spec_reads(error, case),
    }
}

/// Whether `result` is what loading the buffers `crls` comes to: what
/// `loads_as` makes of the outcomes for the buffers, one for one.
pub open spec fn loads_from(crls: Seq<CertificateRevocationListDer<'_>>, result: Loaded) -> bool {
    exists|outcomes: Seq<Parsed>|
        {
            &&& outcomes.len() == crls.len()
            &&& forall|i: int|
                0 <= i < crls.len() ==> outcome_of(der_bytes(crls[i]), #[trigger] outcomes[i])
            &&& loads_as(outcomes, result)
        }
}

/// What loading comes to, in terms of the buffers and of what the engine
/// makes of them. It succeeds exactly when the engine takes every buffer
/// for a revocation list; the lists are then what the engine parses from
/// the buffers, one for one and in their order, so loading no buffer gives
/// no list. Otherwise the result is a report for the engine's error on the
/// first buffer that it refuses, and for nothing else.
pub proof fn lemma_loads(crls: Seq<CertificateRevocationListDer<'_>>, result: Loaded)
    requires
        loads_from(crls, result),
    ensures
        result is Ok <==> all_revocation_lists(crls),
        result matches Ok(lists) ==> {
            &&& lists.len() == crls.len()
            &&& forall|i: int|
                0 <= i < crls.len() ==> engine_parse(der_bytes(#[trigger] crls[i])) == Ok::<
                    CertRevocationList<'static>,
                    webpki::Error,
                >(lists[i])
        },
        result matches Err(report) ==> exists|k: int| #[trigger]
            first_refused_at(crls, k) && reports(
                engine_parse(der_bytes(crls[k]))->Err_0,
                report,
            ),
        crls.len() == 0 ==> result == Ok::<
            Seq<CertRevocationList<'static>>,
            CertRevocationListError,
        >(Seq::empty()),
{
    let outcomes = choose|outcomes: Seq<Parsed>|
        {
            &&& outcomes.len() == crls.len()
            &&& forall|i: int|
                0 <= i < crls.len() ==> outcome_of(der_bytes(crls[i]), #[trigger] outcomes[i])
            &&& loads_as(outcomes, result)
        };
    assert forall|i: int| 0 <= i < crls.len() implies ((#[trigger] outcomes[i]) is Ok
        <==> is_revocation_list(der_bytes(crls[i]))) by {
        assert(outcome_of(der_bytes(crls[i]), outcomes[i]));
    }
    match result {
        Ok(lists) => {
            assert forall|i: int| 0 <= i < crls.len() implies engine_parse(
                der_bytes(#[trigger] crls[i]),
            ) == Ok::<CertRevocationList<'static>, webpki::Error>(lists[i]) by {
                assert(outcomes[i] is Ok);
                assert(outcome_of(der_bytes(crls[i]), outcomes[i]));
            }
            if crls.len() == 0 {
                assert(lists =~= Seq::empty());
            }
        },
        Err(report) => {
            let k = choose|k: int| #[trigger]
                first_failure_at(outcomes, k) && report == spec_crl_error(outcomes[k]->Err_0);
            assert(outcome_of(der_bytes(crls[k]), outcomes[k]));
            assert forall|j: int| 0 <= j < k implies is_revocation_list(
                der_bytes(#[trigger] crls[j]),
            ) by {
                assert(outcomes[j] is Ok);
            }
            assert(first_refused_at(crls, k));
            assert(EngineError::spec_reads(
                engine_parse(der_bytes(crls[k]))->Err_0,
                outcomes[k]->Err_0,
            ));
            assert(reports(engine_parse(der_bytes(crls[k]))->Err_0, report));
        },
    }
}

/// Gathers the parsed lists, all or nothing.
pub fn collect_crls(outcomes: Vec<Parsed>) -> (result: Result<
    Vec<CertRevocationList<'static>>,
    CertRevocationListError,
>)
    ensures
        loads_as(outcomes@, loaded(result)),
{
    let ghost all = outcomes@;
    let mut lists: Vec<CertRevocationList<'static>> = Vec::new();
    for outcome in it: outcomes.into_iter()
        invariant
            it.seq() == all,
            lists@.len() == it.index(),
            forall|i: int|
                0 <= i < it.index() ==> (#[trigger] all[i]) == Ok::<
                    CertRevocationList<'static>,
                    EngineError,
                >(lists@[i]),
    {
        match outcome {
            Ok(list) => lists.push(list),
            Err(e) => {
                assert(first_failure_at(all, it.index() as int));
                return Err(crl_error(e));
            },
        }
    }
    Ok(lists)
}

/// Loads revocation lists from their encodings. Each buffer is handed to
/// the engine on its own. The result is every list that the engine parses,
/// in the order of the buffers, or a report for the engine's error on the
/// first buffer that it refuses: it is `Ok` exactly when the engine takes
/// every buffer for a revocation list.
pub fn parse_crls(crls: Vec<CertificateRevocationListDer<'_>>) -> (result: Result<
    Vec<CertRevocationList<'static>>,
    CertRevocationListError,
>)
    ensures
        loads_from(crls@, loaded(result)),
        result is Ok <==> all_revocation_lists(crls@),
        result matches Ok(lists) ==> {
            &&& lists@.len() == crls@.len()
            &&& forall|i: int|
                0 <= i < crls@.len() ==> engine_parse(der_bytes(#[trigger] crls@[i])) == Ok::<
                    CertRevocationList<'static>,
                    webpki::Error,
                >(lists@[i])
        },
        result matches Err(report) ==> exists|k: int| #[trigger]
            first_refused_at(crls@, k) && reports(
                engine_parse(der_bytes(crls@[k]))->Err_0,
                report,
            ),
{
    let mut outcomes: Vec<Parsed> = Vec::new();
    let mut i: usize = 0;
    while i < crls.len()
        invariant
            i <= crls@.len(),
            outcomes@.len() == i,
            forall|j: int| 0 <= j < i ==> outcome_of(der_bytes(crls@[j]), #[trigger] outcomes@[j]),
        decreases crls@.len() - i,
    {
        let outcome = match revocation_list_from_der(der_as_ref(&crls[i])) {
            Ok(list) => Ok(list),
            Err(e) => Err(EngineError::read(e)),
        };
        outcomes.push(outcome);
        i += 1;
    }
    let result = collect_crls(outcomes);
    proof {
        assert(loads_from(crls@, loaded(result)));
        lemma_loads(crls@, loaded(result));
    }
    result
}

} // verus!
