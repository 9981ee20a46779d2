use rustls::error::{
    CertRevocationListError, CertificateError, ExtendedKeyPurpose, OtherError, TlsError,
};
use rustls::trust::anchors::RootCertStore;
use rustls::trust::builder::{Verifier, WebPkiClientVerifier, WebPkiServerVerifier};
use rustls::trust::engine::EngineError;
use rustls::trust::{collect_crls, crl_error, parse_crls, pki_error, Parsed, VerifierBuilderError};
use rustls_pki_types::{CertificateRevocationListDer, Der, ServerName, TrustAnchor, UnixTime};
use std::time::Duration;

fn der(tag: u8, content: &[u8]) -> Vec<u8> {
    let mut out = vec![tag];
    if content.len() < 128 {
        out.push(content.len() as u8);
    } else {
        assert!(content.len() < 256);
        out.push(0x81);
        out.push(content.len() as u8);
    }
    out.extend_from_slice(content);
    out
}

fn join(parts: &[Vec<u8>]) -> Vec<u8> {
    parts.concat()
}

// An extension: its identifier under 2.5.29, and its value.
fn extension(last_arc: u8, value: &[u8]) -> Vec<u8> {
    der(0x30, &join(&[der(0x06, &[0x55, 0x1d, last_arc]), der(0x04, value)]))
}

// A revocation list with the given version, extensions and serial numbers
// of revoked certificates. The signature is not a real one: loading a list
// does not check it.
fn crl_with(version: u8, extensions: &[Vec<u8>], revoked: &[u8]) -> Vec<u8> {
    crl_of(&[version], b"250101000000Z", extensions, revoked)
}

fn crl_of(version: &[u8], this_update: &[u8], extensions: &[Vec<u8>], revoked: &[u8]) -> Vec<u8> {
    let algorithm = der(0x30, &der(0x06, &[0x2b, 0x65, 0x70]));
    let issuer = der(
        0x30,
        &der(0x31, &der(0x30, &join(&[der(0x06, &[0x55, 0x04, 0x03]), der(0x0c, b"ca")]))),
    );
    let mut tbs = join(&[
        der(0x02, version),
        algorithm.clone(),
        issuer,
        der(0x17, this_update),
        der(0x17, b"350101000000Z"),
    ]);
    if !revoked.is_empty() {
        let entries: Vec<Vec<u8>> = revoked
            .iter()
            .map(|serial| der(0x30, &join(&[der(0x02, &[*serial]), der(0x17, b"250101000000Z")])))
            .collect();
        tbs.extend(der(0x30, &join(&entries)));
    }
    tbs.extend(der(0xa0, &der(0x30, &join(extensions))));
    der(
        0x30,
        &join(&[der(0x30, &tbs), algorithm, der(0x03, &[0x00, 0xde, 0xad, 0xbe, 0xef])]),
    )
}

fn crl_number(n: u8) -> Vec<u8> {
    extension(20, &der(0x02, &[n]))
}

fn good_crl(n: u8) -> Vec<u8> {
    crl_with(1, &[crl_number(n)], &[n])
}

fn crl_of_version_1() -> Vec<u8> {
    crl_with(0, &[crl_number(1)], &[])
}

fn delta_crl() -> Vec<u8> {
    crl_with(1, &[crl_number(2), extension(27, &der(0x02, &[1]))], &[])
}

fn crl_with_bad_number() -> Vec<u8> {
    crl_with(1, &[extension(20, &der(0x02, &[0x80]))], &[])
}

fn crl_with_bad_time() -> Vec<u8> {
    crl_of(&[1], b"251301000000Z", &[crl_number(1)], &[])
}

fn crl_with_long_version() -> Vec<u8> {
    crl_of(&[1, 1], b"250101000000Z", &[crl_number(1)], &[])
}

fn anchor() -> TrustAnchor<'static> {
    TrustAnchor {
        subject: Der::from_slice(b"subject"),
        subject_public_key_info: Der::from_slice(b"key"),
        name_constraints: None,
    }
}

fn roots(n: usize) -> RootCertStore {
    let mut store = RootCertStore::empty();
    store.extend((0..n).map(|_| anchor()).collect());
    store
}

fn ders(buffers: &[Vec<u8>]) -> Vec<CertificateRevocationListDer<'static>> {
    buffers
        .iter()
        .map(|b| CertificateRevocationListDer::from(b.clone()))
        .collect()
}

fn time(secs: u64) -> UnixTime {
    UnixTime::since_unix_epoch(Duration::from_secs(secs))
}

#[test]
#[allow(deprecated)]
fn pki_crl_errors() {
    // CRL signature errors should be turned into BadSignature.
    assert_eq!(
        pki_error(EngineError::read(webpki::Error::InvalidCrlSignatureForPublicKey)),
        TlsError::InvalidCertRevocationList(CertRevocationListError::BadSignature),
    );
    assert_eq!(
        pki_error(EngineError::read(webpki::Error::UnsupportedCrlSignatureAlgorithm)),
        TlsError::InvalidCertRevocationList(CertRevocationListError::UnsupportedSignatureAlgorithm),
    );
    assert_eq!(
        pki_error(EngineError::read(
            webpki::Error::UnsupportedCrlSignatureAlgorithmForPublicKey
        )),
        TlsError::InvalidCertRevocationList(CertRevocationListError::UnsupportedSignatureAlgorithm),
    );

    // Revoked cert errors should be turned into Revoked.
    assert_eq!(
        pki_error(EngineError::read(webpki::Error::CertRevoked)),
        TlsError::InvalidCertificate(CertificateError::Revoked),
    );

    // Issuer not CRL signer errors should be turned into IssuerInvalidForCrl
    assert_eq!(
        pki_error(EngineError::read(webpki::Error::IssuerNotCrlSigner)),
        TlsError::InvalidCertRevocationList(CertRevocationListError::IssuerInvalidForCrl)
    );
}

#[test]
#[allow(deprecated)]
fn crl_error_from_webpki() {
    let testcases = &[
        (
            webpki::Error::InvalidCrlSignatureForPublicKey,
            CertRevocationListError::BadSignature,
        ),
        (
            webpki::Error::UnsupportedCrlSignatureAlgorithm,
            CertRevocationListError::UnsupportedSignatureAlgorithm,
        ),
        (
            webpki::Error::UnsupportedCrlSignatureAlgorithmForPublicKey,
            CertRevocationListError::UnsupportedSignatureAlgorithm,
        ),
        (webpki::Error::InvalidCrlNumber, CertRevocationListError::InvalidCrlNumber),
        (
            webpki::Error::InvalidSerialNumber,
            CertRevocationListError::InvalidRevokedCertSerialNumber,
        ),
        (webpki::Error::IssuerNotCrlSigner, CertRevocationListError::IssuerInvalidForCrl),
        (webpki::Error::MalformedExtensions, CertRevocationListError::ParseError),
        (webpki::Error::BadDer, CertRevocationListError::ParseError),
        (webpki::Error::BadDerTime, CertRevocationListError::ParseError),
        (
            webpki::Error::UnsupportedCriticalExtension,
            CertRevocationListError::UnsupportedCriticalExtension,
        ),
        (webpki::Error::UnsupportedCrlVersion, CertRevocationListError::UnsupportedCrlVersion),
        (webpki::Error::UnsupportedDeltaCrl, CertRevocationListError::UnsupportedDeltaCrl),
        (webpki::Error::UnsupportedIndirectCrl, CertRevocationListError::UnsupportedIndirectCrl),
        (
            webpki::Error::UnsupportedRevocationReason,
            CertRevocationListError::UnsupportedRevocationReason,
        ),
    ];
    for t in testcases {
        assert_eq!(crl_error(EngineError::read(t.0.clone())), t.1);
    }

    assert!(matches!(
        crl_error(EngineError::read(webpki::Error::NameConstraintViolation)),
        CertRevocationListError::Other(..)
    ));
}

#[test]
#[allow(deprecated)]
fn every_listed_engine_error_is_read_as_its_case() {
    let cases = [
        (webpki::Error::BadDer, EngineError::BadDer),
        (webpki::Error::BadDerTime, EngineError::BadDerTime),
        (
            webpki::Error::TrailingData(webpki::DerTypeId::Certificate),
            EngineError::TrailingData(webpki::DerTypeId::Certificate),
        ),
        (
            webpki::Error::TrailingData(webpki::DerTypeId::CertRevocationList),
            EngineError::TrailingData(webpki::DerTypeId::CertRevocationList),
        ),
        (webpki::Error::InvalidCertValidity, EngineError::InvalidCertValidity),
        (webpki::Error::UnknownIssuer, EngineError::UnknownIssuer),
        (webpki::Error::CertRevoked, EngineError::CertRevoked),
        (webpki::Error::UnknownRevocationStatus, EngineError::UnknownRevocationStatus),
        (
            webpki::Error::InvalidSignatureForPublicKey,
            EngineError::InvalidSignatureForPublicKey,
        ),
        (
            webpki::Error::UnsupportedSignatureAlgorithm,
            EngineError::UnsupportedSignatureAlgorithm,
        ),
        (
            webpki::Error::UnsupportedSignatureAlgorithmForPublicKey,
            EngineError::UnsupportedSignatureAlgorithmForPublicKey,
        ),
        (webpki::Error::RequiredEkuNotFound, EngineError::RequiredEkuNotFound),
        (
            webpki::Error::InvalidCrlSignatureForPublicKey,
            EngineError::InvalidCrlSignatureForPublicKey,
        ),
        (
            webpki::Error::UnsupportedCrlSignatureAlgorithm,
            EngineError::UnsupportedCrlSignatureAlgorithm,
        ),
        (
            webpki::Error::UnsupportedCrlSignatureAlgorithmForPublicKey,
            EngineError::UnsupportedCrlSignatureAlgorithmForPublicKey,
        ),
        (webpki::Error::IssuerNotCrlSigner, EngineError::IssuerNotCrlSigner),
        (webpki::Error::InvalidCrlNumber, EngineError::InvalidCrlNumber),
        (webpki::Error::InvalidSerialNumber, EngineError::InvalidSerialNumber),
        (webpki::Error::MalformedExtensions, EngineError::MalformedExtensions),
        (
            webpki::Error::UnsupportedCriticalExtension,
            EngineError::UnsupportedCriticalExtension,
        ),
        (webpki::Error::UnsupportedCrlVersion, EngineError::UnsupportedCrlVersion),
        (webpki::Error::UnsupportedDeltaCrl, EngineError::UnsupportedDeltaCrl),
        (webpki::Error::UnsupportedIndirectCrl, EngineError::UnsupportedIndirectCrl),
        (
            webpki::Error::UnsupportedRevocationReason,
            EngineError::UnsupportedRevocationReason,
        ),
        (
            webpki::Error::CertNotValidYet { time: time(10), not_before: time(20) },
            EngineError::CertNotValidYet { time: time(10), not_before: time(20) },
        ),
        (
            webpki::Error::CertExpired { time: time(30), not_after: time(20) },
            EngineError::CertExpired { time: time(30), not_after: time(20) },
        ),
        (
            webpki::Error::CrlExpired { time: time(50), next_update: time(40) },
            EngineError::CrlExpired { time: time(50), next_update: time(40) },
        ),
        (
            webpki::Error::CertNotValidForName(webpki::InvalidNameContext {
                expected: ServerName::try_from("example.com").unwrap(),
                presented: vec!["DnsName(\"example.org\")".to_string()],
            }),
            EngineError::CertNotValidForName {
                expected: ServerName::try_from("example.com").unwrap(),
                presented: vec!["DnsName(\"example.org\")".to_string()],
            },
        ),
        (
            webpki::Error::RequiredEkuNotFoundContext(webpki::RequiredEkuNotFoundContext {
                required: webpki::KeyUsage::client_auth(),
                present: vec![vec![1, 3, 6, 1, 5, 5, 7, 3, 1], vec![1, 2, 3]],
            }),
            EngineError::RequiredEkuNotFoundContext {
                required: vec![1, 3, 6, 1, 5, 5, 7, 3, 2],
                present: vec![vec![1, 3, 6, 1, 5, 5, 7, 3, 1], vec![1, 2, 3]],
            },
        ),
    ];
    for (engine, expected) in cases {
        assert_eq!(EngineError::read(engine), expected);
    }
}

#[test]
fn an_unlisted_engine_error_is_kept_whole() {
    let unlisted = [
        webpki::Error::NameConstraintViolation,
        webpki::Error::CaUsedAsEndEntity,
        webpki::Error::EndEntityUsedAsCa,
        webpki::Error::PathLenConstraintViolated,
        webpki::Error::MaximumSignatureChecksExceeded,
        webpki::Error::SignatureAlgorithmMismatch,
        webpki::Error::UnsupportedCertVersion,
        webpki::Error::UnsupportedNameType,
    ];
    for engine in unlisted {
        let read = EngineError::read(engine.clone());
        assert_eq!(read, EngineError::Unlisted(engine.clone()));
        assert_eq!(read.describe(), format!("{engine:?}"));
        assert_eq!(
            pki_error(read.clone()),
            TlsError::InvalidCertificate(CertificateError::Other(OtherError::new(read.clone())))
        );
        assert_eq!(
            crl_error(read.clone()),
            CertRevocationListError::Other(OtherError::new(read.clone()))
        );
        assert_eq!(OtherError::new(read).describe(), format!("{engine:?}"));
    }
}

#[test]
fn every_engine_error_has_its_certificate_report() {
    let cert = TlsError::InvalidCertificate;
    let list = TlsError::InvalidCertRevocationList;
    assert_eq!(pki_error(EngineError::BadDer), cert(CertificateError::BadEncoding));
    assert_eq!(pki_error(EngineError::BadDerTime), cert(CertificateError::BadEncoding));
    assert_eq!(
        pki_error(EngineError::TrailingData(webpki::DerTypeId::Certificate)),
        cert(CertificateError::BadEncoding)
    );
    assert_eq!(
        pki_error(EngineError::TrailingData(webpki::DerTypeId::Time)),
        cert(CertificateError::BadEncoding)
    );
    assert_eq!(
        pki_error(EngineError::CertNotValidYet { time: time(1), not_before: time(2) }),
        cert(CertificateError::NotValidYetContext { time: time(1), not_before: time(2) })
    );
    assert_eq!(
        pki_error(EngineError::CertExpired { time: time(3), not_after: time(2) }),
        cert(CertificateError::ExpiredContext { time: time(3), not_after: time(2) })
    );
    assert_eq!(pki_error(EngineError::InvalidCertValidity), cert(CertificateError::Expired));
    assert_eq!(pki_error(EngineError::UnknownIssuer), cert(CertificateError::UnknownIssuer));
    assert_eq!(
        pki_error(EngineError::CertNotValidForName {
            expected: ServerName::try_from("a.example").unwrap(),
            presented: vec!["b.example".to_string(), "c.example".to_string()],
        }),
        cert(CertificateError::NotValidForNameContext {
            expected: ServerName::try_from("a.example").unwrap(),
            presented: vec!["b.example".to_string(), "c.example".to_string()],
        })
    );
    assert_eq!(pki_error(EngineError::CertRevoked), cert(CertificateError::Revoked));
    assert_eq!(
        pki_error(EngineError::UnknownRevocationStatus),
        cert(CertificateError::UnknownRevocationStatus)
    );
    assert_eq!(
        pki_error(EngineError::CrlExpired { time: time(9), next_update: time(8) }),
        cert(CertificateError::ExpiredRevocationListContext { time: time(9), next_update: time(8) })
    );
    assert_eq!(
        pki_error(EngineError::IssuerNotCrlSigner),
        list(CertRevocationListError::IssuerInvalidForCrl)
    );
    assert_eq!(
        pki_error(EngineError::InvalidSignatureForPublicKey),
        cert(CertificateError::BadSignature)
    );
    assert_eq!(
        pki_error(EngineError::UnsupportedSignatureAlgorithm),
        cert(CertificateError::UnsupportedSignatureAlgorithm)
    );
    assert_eq!(
        pki_error(EngineError::UnsupportedSignatureAlgorithmForPublicKey),
        cert(CertificateError::UnsupportedSignatureAlgorithm)
    );
    assert_eq!(
        pki_error(EngineError::InvalidCrlSignatureForPublicKey),
        list(CertRevocationListError::BadSignature)
    );
    assert_eq!(
        pki_error(EngineError::UnsupportedCrlSignatureAlgorithm),
        list(CertRevocationListError::UnsupportedSignatureAlgorithm)
    );
    assert_eq!(
        pki_error(EngineError::UnsupportedCrlSignatureAlgorithmForPublicKey),
        list(CertRevocationListError::UnsupportedSignatureAlgorithm)
    );
    assert_eq!(pki_error(EngineError::RequiredEkuNotFound), cert(CertificateError::InvalidPurpose));
    assert_eq!(
        pki_error(EngineError::RequiredEkuNotFoundContext {
            required: vec![1, 3, 6, 1, 5, 5, 7, 3, 1],
            present: vec![vec![1, 3, 6, 1, 5, 5, 7, 3, 2], vec![2, 5, 29, 37, 0], vec![]],
        }),
        cert(CertificateError::InvalidPurposeContext {
            required: ExtendedKeyPurpose::ServerAuth,
            presented: vec![
                ExtendedKeyPurpose::ClientAuth,
                ExtendedKeyPurpose::Other(vec![2, 5, 29, 37, 0]),
                ExtendedKeyPurpose::Other(vec![]),
            ],
        })
    );
    // the errors that only a revocation list has a report for
    for other in [
        EngineError::InvalidCrlNumber,
        EngineError::InvalidSerialNumber,
        EngineError::MalformedExtensions,
        EngineError::UnsupportedCriticalExtension,
        EngineError::UnsupportedCrlVersion,
        EngineError::UnsupportedDeltaCrl,
        EngineError::UnsupportedIndirectCrl,
        EngineError::UnsupportedRevocationReason,
        EngineError::Unlisted(webpki::Error::CertDistrusted),
    ] {
        assert_eq!(
            pki_error(other.clone()),
            cert(CertificateError::Other(OtherError::new(other)))
        );
    }
}

#[test]
fn every_engine_error_has_its_revocation_list_report() {
    assert_eq!(crl_error(EngineError::InvalidCrlSignatureForPublicKey), CertRevocationListError::BadSignature);
    assert_eq!(
        crl_error(EngineError::UnsupportedCrlSignatureAlgorithm),
        CertRevocationListError::UnsupportedSignatureAlgorithm
    );
    assert_eq!(
        crl_error(EngineError::UnsupportedCrlSignatureAlgorithmForPublicKey),
        CertRevocationListError::UnsupportedSignatureAlgorithm
    );
    assert_eq!(crl_error(EngineError::InvalidCrlNumber), CertRevocationListError::InvalidCrlNumber);
    assert_eq!(
        crl_error(EngineError::InvalidSerialNumber),
        CertRevocationListError::InvalidRevokedCertSerialNumber
    );
    assert_eq!(crl_error(EngineError::IssuerNotCrlSigner), CertRevocationListError::IssuerInvalidForCrl);
    assert_eq!(crl_error(EngineError::MalformedExtensions), CertRevocationListError::ParseError);
    assert_eq!(crl_error(EngineError::BadDer), CertRevocationListError::ParseError);
    assert_eq!(crl_error(EngineError::BadDerTime), CertRevocationListError::ParseError);
    assert_eq!(
        crl_error(EngineError::UnsupportedCriticalExtension),
        CertRevocationListError::UnsupportedCriticalExtension
    );
    assert_eq!(crl_error(EngineError::UnsupportedCrlVersion), CertRevocationListError::UnsupportedCrlVersion);
    assert_eq!(crl_error(EngineError::UnsupportedDeltaCrl), CertRevocationListError::UnsupportedDeltaCrl);
    assert_eq!(crl_error(EngineError::UnsupportedIndirectCrl), CertRevocationListError::UnsupportedIndirectCrl);
    assert_eq!(
        crl_error(EngineError::UnsupportedRevocationReason),
        CertRevocationListError::UnsupportedRevocationReason
    );
    // everything else is kept under `Other`
    for other in [
        EngineError::TrailingData(webpki::DerTypeId::CertRevocationList),
        EngineError::TrailingData(webpki::DerTypeId::Signature),
        EngineError::CertNotValidYet { time: time(1), not_before: time(2) },
        EngineError::CertExpired { time: time(3), not_after: time(2) },
        EngineError::InvalidCertValidity,
        EngineError::UnknownIssuer,
        EngineError::CertRevoked,
        EngineError::UnknownRevocationStatus,
        EngineError::CrlExpired { time: time(9), next_update: time(8) },
        EngineError::InvalidSignatureForPublicKey,
        EngineError::UnsupportedSignatureAlgorithm,
        EngineError::UnsupportedSignatureAlgorithmForPublicKey,
        EngineError::RequiredEkuNotFound,
        EngineError::RequiredEkuNotFoundContext { required: vec![1], present: vec![] },
        EngineError::Unlisted(webpki::Error::EmptyEkuExtension),
    ] {
        assert_eq!(
            crl_error(other.clone()),
            CertRevocationListError::Other(OtherError::new(other))
        );
    }
}

#[test]
fn key_purposes() {
    assert_eq!(
        ExtendedKeyPurpose::for_values(&[1, 3, 6, 1, 5, 5, 7, 3, 2]),
        ExtendedKeyPurpose::ClientAuth
    );
    assert_eq!(
        ExtendedKeyPurpose::for_values(&[1, 3, 6, 1, 5, 5, 7, 3, 1]),
        ExtendedKeyPurpose::ServerAuth
    );
    assert_eq!(
        ExtendedKeyPurpose::for_values(&[1, 3, 6, 1, 5, 5, 7, 3, 3]),
        ExtendedKeyPurpose::Other(vec![1, 3, 6, 1, 5, 5, 7, 3, 3])
    );
    assert_eq!(
        ExtendedKeyPurpose::for_values(&[1, 3, 6, 1, 5, 5, 7, 3]),
        ExtendedKeyPurpose::Other(vec![1, 3, 6, 1, 5, 5, 7, 3])
    );
    assert_eq!(
        ExtendedKeyPurpose::for_values(&[1, 3, 6, 1, 5, 5, 7, 3, 1, 0]),
        ExtendedKeyPurpose::Other(vec![1, 3, 6, 1, 5, 5, 7, 3, 1, 0])
    );
    assert_eq!(
        ExtendedKeyPurpose::for_values(&[2, 3, 6, 1, 5, 5, 7, 3, 1]),
        ExtendedKeyPurpose::Other(vec![2, 3, 6, 1, 5, 5, 7, 3, 1])
    );
    assert_eq!(ExtendedKeyPurpose::for_values(&[]), ExtendedKeyPurpose::Other(vec![]));
}

#[test]
fn builder_error_messages() {
    assert_eq!(
        VerifierBuilderError::NoRootAnchors.to_string(),
        "no root trust anchors were provided"
    );
    assert_eq!(
        VerifierBuilderError::InvalidCrl(CertRevocationListError::ParseError).to_string(),
        "provided CRL could not be parsed: ParseError"
    );
    assert_eq!(
        VerifierBuilderError::from(CertRevocationListError::UnsupportedDeltaCrl).to_string(),
        "provided CRL could not be parsed: UnsupportedDeltaCrl"
    );
    assert_eq!(
        VerifierBuilderError::InvalidCrl(crl_error(EngineError::CertRevoked)).to_string(),
        "provided CRL could not be parsed: Other(OtherError(CertRevoked))"
    );
    assert_eq!(
        VerifierBuilderError::InvalidCrl(crl_error(EngineError::read(
            webpki::Error::NameConstraintViolation
        )))
        .to_string(),
        "provided CRL could not be parsed: Other(OtherError(NameConstraintViolation))"
    );
    assert!(matches!(
        VerifierBuilderError::from(CertRevocationListError::BadSignature),
        VerifierBuilderError::InvalidCrl(CertRevocationListError::BadSignature)
    ));
}

#[test]
fn names_of_cases() {
    assert_eq!(CertRevocationListError::IssuerInvalidForCrl.name(), "IssuerInvalidForCrl");
    assert_eq!(CertRevocationListError::BadSignature.describe(), "BadSignature");
    assert_eq!(EngineError::CertExpired { time: time(2), not_after: time(1) }.name(), "CertExpired");
    assert_eq!(EngineError::UnsupportedCrlVersion.describe(), "UnsupportedCrlVersion");
    assert_eq!(EngineError::Unlisted(webpki::Error::CertDistrusted).name(), "Unlisted");
    assert_eq!(EngineError::Unlisted(webpki::Error::CertDistrusted).describe(), "CertDistrusted");
}

#[test]
fn well_formed_buffers_load_in_order() {
    for n in 0..4u8 {
        let buffers: Vec<Vec<u8>> = (1..=n).map(good_crl).collect();
        let lists = parse_crls(ders(&buffers)).unwrap();
        assert_eq!(lists.len(), n as usize);
        for (i, list) in lists.iter().enumerate() {
            // list i revokes the serial number i + 1, and no other
            let serial = i as u8 + 1;
            assert!(list.find_serial(&[serial]).unwrap().is_some());
            assert!(list.find_serial(&[serial + 1]).unwrap().is_none());
        }
    }
}

#[test]
fn the_first_malformed_buffer_decides() {
    let bad = [
        (crl_of_version_1(), CertRevocationListError::UnsupportedCrlVersion),
        (delta_crl(), CertRevocationListError::UnsupportedDeltaCrl),
        (crl_with_bad_number(), CertRevocationListError::InvalidCrlNumber),
        (crl_with_bad_time(), CertRevocationListError::ParseError),
        (crl_with_long_version(), CertRevocationListError::ParseError),
        (
            vec![0x31, 0x00],
            CertRevocationListError::Other(OtherError::new(EngineError::TrailingData(
                webpki::DerTypeId::CertRevocationList,
            ))),
        ),
        (
            vec![],
            CertRevocationListError::Other(OtherError::new(EngineError::TrailingData(
                webpki::DerTypeId::CertRevocationList,
            ))),
        ),
    ];
    let n = 4;
    for (malformed, expected) in &bad {
        for k in 0..n {
            let mut buffers: Vec<Vec<u8>> = (1..=n as u8).map(good_crl).collect();
            buffers[k] = malformed.clone();
            assert_eq!(parse_crls(ders(&buffers)).unwrap_err(), *expected);
            // a later failure of another kind does not change the answer
            if k + 1 < n {
                buffers[k + 1] = bad[(k + 1) % bad.len()].0.clone();
                assert_eq!(parse_crls(ders(&buffers)).unwrap_err(), *expected);
            }
        }
    }
}

#[test]
fn trailing_bytes_after_a_list_are_reported_as_other() {
    let mut buffer = good_crl(1);
    buffer.push(0);
    assert!(matches!(
        parse_crls(ders(&[buffer])),
        Err(CertRevocationListError::Other(..))
    ));
}

#[test]
fn trailing_data_keeps_the_kind_of_item() {
    let mut buffer = good_crl(1);
    buffer.push(0);
    let report = parse_crls(ders(&[buffer])).unwrap_err();
    assert_eq!(
        report,
        CertRevocationListError::Other(OtherError::new(EngineError::TrailingData(
            webpki::DerTypeId::CertRevocationList
        )))
    );
    assert_ne!(
        EngineError::read(webpki::Error::TrailingData(webpki::DerTypeId::Time)),
        EngineError::read(webpki::Error::TrailingData(webpki::DerTypeId::Signature))
    );
    assert_eq!(
        EngineError::TrailingData(webpki::DerTypeId::Time).describe(),
        "TrailingData"
    );
}

fn parsed(buffer: &[u8]) -> Parsed {
    match webpki::OwnedCertRevocationList::from_der(buffer) {
        Ok(list) => Ok(list.into()),
        Err(e) => Err(EngineError::read(e)),
    }
}

#[test]
fn collecting_outcomes() {
    assert_eq!(collect_crls(vec![]).unwrap().len(), 0);

    let lists = collect_crls(vec![parsed(&good_crl(7)), parsed(&good_crl(3))]).unwrap();
    assert_eq!(lists.len(), 2);
    assert!(lists[0].find_serial(&[7]).unwrap().is_some());
    assert!(lists[1].find_serial(&[3]).unwrap().is_some());

    // outcome k fails: its report comes back, whatever follows
    for k in 0..3 {
        let mut outcomes: Vec<Parsed> = (1..=3u8).map(|n| parsed(&good_crl(n))).collect();
        outcomes[k] = Err(EngineError::InvalidSerialNumber);
        assert_eq!(
            collect_crls(outcomes).unwrap_err(),
            CertRevocationListError::InvalidRevokedCertSerialNumber
        );
    }
    let outcomes: Vec<Parsed> = vec![
        parsed(&good_crl(1)),
        Err(EngineError::UnsupportedIndirectCrl),
        Err(EngineError::BadDer),
    ];
    assert_eq!(
        collect_crls(outcomes).unwrap_err(),
        CertRevocationListError::UnsupportedIndirectCrl
    );
    let outcomes: Vec<Parsed> = vec![Err(EngineError::CertRevoked), parsed(&good_crl(1))];
    assert_eq!(
        collect_crls(outcomes).unwrap_err(),
        CertRevocationListError::Other(OtherError::new(EngineError::CertRevoked))
    );
}

#[test]
fn root_store() {
    let mut store = RootCertStore::empty();
    assert!(store.is_empty());
    assert_eq!(store.len(), 0);
    store.extend(vec![anchor()]);
    assert!(!store.is_empty());
    assert_eq!(store.len(), 1);
    store.extend(vec![anchor(), anchor()]);
    assert_eq!(store.len(), 3);
    store.extend(vec![]);
    assert_eq!(store.len(), 3);
}

#[test]
fn no_anchors_is_an_error_whatever_the_revocation_lists() {
    for crls in [
        vec![],
        vec![good_crl(1)],
        vec![good_crl(1), good_crl(2)],
        vec![delta_crl()],
        vec![vec![0xff]],
        vec![good_crl(1), vec![]],
    ] {
        assert!(matches!(
            Verifier::build(RootCertStore::empty(), ders(&crls)),
            Err(VerifierBuilderError::NoRootAnchors)
        ));
        assert!(matches!(
            WebPkiServerVerifier::builder(RootCertStore::empty())
                .with_crls(ders(&crls))
                .build(),
            Err(VerifierBuilderError::NoRootAnchors)
        ));
        assert!(matches!(
            WebPkiClientVerifier::builder(RootCertStore::empty())
                .with_crls(ders(&crls))
                .build(),
            Err(VerifierBuilderError::NoRootAnchors)
        ));
    }
}

#[test]
fn anchors_without_revocation_lists_build_and_do_not_check_revocation() {
    for n in 1..4 {
        let built = WebPkiServerVerifier::builder(roots(n)).build().unwrap();
        assert_eq!(built.inner.roots().len(), n);
        assert_eq!(built.inner.crls().len(), 0);
        assert!(!built.inner.checks_revocation());

        let built = WebPkiClientVerifier::builder(roots(n)).build().unwrap();
        assert_eq!(built.inner.roots().len(), n);
        assert!(!built.inner.checks_revocation());

        let built = Verifier::build(roots(n), vec![]).unwrap();
        assert!(!built.checks_revocation());
    }
}

#[test]
fn anchors_with_revocation_lists() {
    let built = WebPkiServerVerifier::builder(roots(2))
        .with_crls(ders(&[good_crl(5)]))
        .with_crls(ders(&[good_crl(6), good_crl(7)]))
        .build()
        .unwrap();
    assert_eq!(built.inner.roots().len(), 2);
    assert_eq!(built.inner.crls().len(), 3);
    assert!(built.inner.checks_revocation());
    assert!(built.inner.crls()[0].find_serial(&[5]).unwrap().is_some());
    assert!(built.inner.crls()[2].find_serial(&[7]).unwrap().is_some());

    let refused = WebPkiClientVerifier::builder(roots(1))
        .with_crls(ders(&[good_crl(5), crl_of_version_1()]))
        .build();
    assert!(matches!(
        refused,
        Err(VerifierBuilderError::InvalidCrl(CertRevocationListError::UnsupportedCrlVersion))
    ));
}

#[test]
fn the_first_reading_that_gives_a_case_decides() {
    let error = webpki::Error::CertDistrusted;
    let a = Some(EngineError::BadDer);
    let b = Some(EngineError::InvalidCrlNumber);
    let c = Some(EngineError::CertExpired { time: time(2), not_after: time(1) });
    let d = Some(EngineError::RequiredEkuNotFoundContext { required: vec![1], present: vec![] });

    assert_eq!(
        EngineError::settle(a.clone(), b.clone(), c.clone(), d.clone(), error.clone()),
        EngineError::BadDer
    );
    assert_eq!(
        EngineError::settle(a.clone(), None, None, None, error.clone()),
        EngineError::BadDer
    );
    assert_eq!(
        EngineError::settle(None, b.clone(), c.clone(), d.clone(), error.clone()),
        EngineError::InvalidCrlNumber
    );
    assert_eq!(
        EngineError::settle(None, b.clone(), None, None, error.clone()),
        EngineError::InvalidCrlNumber
    );
    assert_eq!(
        EngineError::settle(None, None, c.clone(), d.clone(), error.clone()),
        EngineError::CertExpired { time: time(2), not_after: time(1) }
    );
    assert_eq!(
        EngineError::settle(None, None, None, d.clone(), error.clone()),
        EngineError::RequiredEkuNotFoundContext { required: vec![1], present: vec![] }
    );
    // where no reading gives a case the error is kept whole
    assert_eq!(
        EngineError::settle(None, None, None, None, error.clone()),
        EngineError::Unlisted(error)
    );
    assert_eq!(
        EngineError::settle(None, None, None, None, webpki::Error::UnsupportedNameType),
        EngineError::Unlisted(webpki::Error::UnsupportedNameType)
    );
}
