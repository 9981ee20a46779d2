//! Building the verifiers of server and of client certificates.

use crate::error::CertRevocationListError;
use crate::trust::anchors::RootCertStore;
use crate::trust::engine::{der_bytes, engine_parse};
use crate::trust::{
    all_revocation_lists, first_refused_at, lemma_loads, loads_from, parse_crls, reports,
    VerifierBuilderError,
};
use rustls_pki_types::CertificateRevocationListDer;
use vstd::prelude::*;
use webpki::CertRevocationList;

verus! {

/// Whether `result` is what building from `roots` and `crls` comes to.
/// Without an anchor it is the error for that, whatever the revocation
/// lists are. With an anchor it is what loading the revocation lists comes
/// to: the lists, or the report for the first buffer that the engine
/// refuses, as `InvalidCrl`.
pub open spec fn builds_as(
    roots: RootCertStore,
    crls: Seq<CertificateRevocationListDer<'static>>,
    result: Result<Verifier, VerifierBuilderError>,
) -> bool {
    if roots.roots@.len() == 0 {
        result matches Err(VerifierBuilderError::NoRootAnchors)
    } else {
        match result {
            Ok(built) => {
                &&& built.spec_roots() == roots
                &&& loads_from(
                    crls,
                    Ok::<Seq<CertRevocationList<'static>>, CertRevocationListError>(
                        built.spec_crls(),
                    ),
                )
            },
            Err(VerifierBuilderError::InvalidCrl(e)) => loads_from(
                crls,
                Err::<Seq<CertRevocationList<'static>>, CertRevocationListError>(e),
            ),
            Err(_) => false,
        }
    }
}

/// What follows for every build. Without an anchor nothing is built. With
/// an anchor the verifier is built exactly when the engine takes every
/// buffer for a revocation list, and holds one list for each; so with an
/// anchor and no buffer it is always built, and does not check revocation.
pub proof fn lemma_build(
    roots: RootCertStore,
    crls: Seq<CertificateRevocationListDer<'static>>,
    result: Result<Verifier, VerifierBuilderError>,
)
    requires
        builds_as(roots, crls, result),
    ensures
        roots.roots@.len() == 0 ==> result matches Err(VerifierBuilderError::NoRootAnchors),
        roots.roots@.len() > 0 ==> (result is Ok <==> all_revocation_lists(crls)),
        roots.roots@.len() > 0 && crls.len() == 0 ==> result is Ok,
        result matches Ok(built) ==> {
            &&& roots.roots@.len() > 0
            &&& built.spec_roots() == roots
            &&& built.spec_crls().len() == crls.len()
            &&& built.spec_checks_revocation() == (crls.len() > 0)
            &&& forall|i: int|
                0 <= i < crls.len() ==> engine_parse(der_bytes(#[trigger] crls[i])) == Ok::<
                    CertRevocationList<'static>,
                    webpki::Error,
                >(built.spec_crls()[i])
        },
        roots.roots@.len() > 0 ==> (result matches Err(e) ==> {
            &&& e matches VerifierBuilderError::InvalidCrl(report)
            &&& exists|k: int| #[trigger]
                first_refused_at(crls, k) && reports(
                    engine_parse(der_bytes(crls[k]))->Err_0,
                    report,
                )
        }),
{
    if roots.roots@.len() > 0 {
        match result {
            Ok(built) => {
                lemma_loads(
                    crls,
                    Ok::<Seq<CertRevocationList<'static>>, CertRevocationListError>(
                        built.spec_crls(),
                    ),
                );
            },
            Err(VerifierBuilderError::InvalidCrl(e)) => {
                lemma_loads(
                    crls,
                    Err::<Seq<CertRevocationList<'static>>, CertRevocationListError>(e),
                );
            },
            Err(_) => {},
        }
    }
}

/// What a verifier is built from: the trust anchors, and the revocation
/// lists as the engine parsed them. Once built it does not change.
pub struct Verifier {
    roots: RootCertStore,
    crls: Vec<CertRevocationList<'static>>,
}

impl Verifier {
    /// A verifier always has an anchor to build chains to.
    #[verifier::type_invariant]
    spec fn inv(self) -> bool {
        self.roots.roots@.len() > 0
    }

    /// The trust anchors.
    pub closed spec fn spec_roots(&self) -> RootCertStore {
        self.roots
    }

    /// The revocation lists, in the order in which they were given.
    pub closed spec fn spec_crls(&self) -> Seq<CertRevocationList<'static>> {
        self.crls@
    }

    /// Whether certificates are checked against revocation lists at all: a
    /// verifier that was given none does not check, and treats no
    /// certificate as revoked on that account.
    pub open spec fn spec_checks_revocation(&self) -> bool {
        self.spec_crls().len() > 0
    }

    /// The trust anchors.
    pub fn roots(&self) -> (roots: &RootCertStore)
        ensures
            *roots == self.spec_roots(),
            roots.roots@.len() > 0,
    {
        proof {
            use_type_invariant(self);
        }
        &self.roots
    }

    /// The revocation lists.
    pub fn crls(&self) -> (crls: &[CertRevocationList<'static>])
        ensures
            crls@ == self.spec_crls(),
    {
        self.crls.as_slice()
    }

    /// Whether certificates are checked against revocation lists.
    pub fn checks_revocation(&self) -> (checks: bool)
        ensures
            checks == self.spec_checks_revocation(),
    {
        self.crls.len() > 0
    }

    /// Builds a verifier from anchors and encoded revocation lists.
    ///
    /// Without an anchor there is nothing to build, whatever the revocation
    /// lists are: they are not even parsed. With an anchor, the verifier is
    /// built exactly when the engine takes every buffer for a revocation
    /// list, and it then holds the anchors as given and one parsed list for
    /// each buffer; with no buffer at all it is built and does not check
    /// revocation. A buffer that the engine refuses is reported as
    /// `InvalidCrl`.
    pub fn build(roots: RootCertStore, crls: Vec<CertificateRevocationListDer<'static>>) -> (result:
        Result<Verifier, VerifierBuilderError>)
        ensures
            builds_as(roots, crls@, result),
            roots.roots@.len() == 0 ==> result matches Err(VerifierBuilderError::NoRootAnchors),
            roots.roots@.len() > 0 ==> (result is Ok <==> all_revocation_lists(crls@)),
            roots.roots@.len() > 0 && crls@.len() == 0 ==> result is Ok,
            result matches Ok(built) ==> {
                &&& built.spec_roots() == roots
                &&& built.spec_crls().len() == crls@.len()
                &&& built.spec_checks_revocation() == (crls@.len() > 0)
            },
    {
        if roots.is_empty() {
            return Err(VerifierBuilderError::NoRootAnchors);
        }
        let ghost given = crls@;
        let result = match parse_crls(crls) {
            Ok(crls) => Ok(Verifier { roots, crls }),
            Err(e) => Err(VerifierBuilderError::from(e)),
        };
        proof {
            lemma_build(roots, given, result);
        }
        result
    }
}

/// A verifier of server certificates.
pub struct WebPkiServerVerifier {
    /// What the verifier was built from.
    pub inner: Verifier,
}

/// A verifier of client certificates.
pub struct WebPkiClientVerifier {
    /// What the verifier was built from.
    pub inner: Verifier,
}

/// What a build of a verifier of server certificates came to, without the
/// wrapping.
pub open spec fn spec_inner_of_server(
    result: Result<WebPkiServerVerifier, VerifierBuilderError>,
) -> Result<Verifier, VerifierBuilderError> {
    match result {
        Ok(built) => Ok(built.inner),
        Err(e) => Err(e),
    }
}

/// What a build of a verifier of client certificates came to, without the
/// wrapping.
pub open spec fn spec_inner_of_client(
    result: Result<WebPkiClientVerifier, VerifierBuilderError>,
) -> Result<Verifier, VerifierBuilderError> {
    match result {
        Ok(built) => Ok(built.inner),
        Err(e) => Err(e),
    }
}

/// Collects what a verifier of server certificates is built from.
pub struct ServerCertVerifierBuilder {
    /// The trust anchors.
    pub roots: RootCertStore,
    /// The revocation lists, encoded.
    pub crls: Vec<CertificateRevocationListDer<'static>>,
}

/// Collects what a verifier of client certificates is built from.
pub struct ClientCertVerifierBuilder {
    /// The trust anchors.
    pub roots: RootCertStore,
    /// The revocation lists, encoded.
    pub crls: Vec<CertificateRevocationListDer<'static>>,
}

impl WebPkiServerVerifier {
    /// Starts a verifier that accepts chains to `roots` and knows of no
    /// revocation.
    pub fn builder(roots: RootCertStore) -> (builder: ServerCertVerifierBuilder)
        ensures
            builder.roots == roots,
            builder.crls@.len() == 0,
    {
        ServerCertVerifierBuilder { roots, crls: Vec::new() }
    }
}

impl WebPkiClientVerifier {
    /// Starts a verifier that accepts chains to `roots` and knows of no
    /// revocation.
    pub fn builder(roots: RootCertStore) -> (builder: ClientCertVerifierBuilder)
        ensures
            builder.roots == roots,
            builder.crls@.len() == 0,
    {
        ClientCertVerifierBuilder { roots, crls: Vec::new() }
    }
}

impl ServerCertVerifierBuilder {
    /// Adds revocation lists, after those already given.
    pub fn with_crls(self, crls: Vec<CertificateRevocationListDer<'static>>) -> (builder: Self)
        ensures
            builder.roots == self.roots,
            builder.crls@ == self.crls@ + crls@,
    {
        let mut builder = self;
        let mut crls = crls;
        builder.crls.append(&mut crls);
        builder
    }

    /// Builds the verifier; see `Verifier::build`.
    pub fn build(self) -> (result: Result<WebPkiServerVerifier, VerifierBuilderError>)
        ensures
            builds_as(self.roots, self.crls@, spec_inner_of_server(result)),
            self.roots.roots@.len() == 0 ==> result matches Err(VerifierBuilderError::NoRootAnchors),
            self.roots.roots@.len() > 0 ==> (result is Ok <==> all_revocation_lists(self.crls@)),
            self.roots.roots@.len() > 0 && self.crls@.len() == 0 ==> result is Ok,
            result matches Ok(built) ==> {
                &&& built.inner.spec_roots() == self.roots
                &&& built.inner.spec_crls().len() == self.crls@.len()
                &&& built.inner.spec_checks_revocation() == (self.crls@.len() > 0)
            },
    {
        match Verifier::build(self.roots, self.crls) {
            Ok(inner) => Ok(WebPkiServerVerifier { inner }),
            Err(e) => Err(e),
        }
    }
}

impl ClientCertVerifierBuilder {
    /// Adds revocation lists, after those already given.
    pub fn with_crls(self, crls: Vec<CertificateRevocationListDer<'static>>) -> (builder: Self)
        ensures
            builder.roots == self.roots,
            builder.crls@ == self.crls@ + crls@,
    {
        let mut builder = self;
        let mut crls = crls;
        builder.crls.append(&mut crls);
        builder
    }

    /// Builds the verifier; see `Verifier::build`.
    pub fn build(self) -> (result: Result<WebPkiClientVerifier, VerifierBuilderError>)
        ensures
            builds_as(self.roots, self.crls@, spec_inner_of_client(result)),
            self.roots.roots@.len() == 0 ==> result matches Err(VerifierBuilderError::NoRootAnchors),
            self.roots.roots@.len() > 0 ==> (result is Ok <==> all_revocation_lists(self.crls@)),
            self.roots.roots@.len() > 0 && self.crls@.len() == 0 ==> result is Ok,
            result matches Ok(built) ==> {
                &&& built.inner.spec_roots() == self.roots
                &&& built.inner.spec_crls().len() == self.crls@.len()
                &&& built.inner.spec_checks_revocation() == (self.crls@.len() > 0)
            },
    {
        match Verifier::build(self.roots, self.crls) {
            Ok(inner) => Ok(WebPkiClientVerifier { inner }),
            Err(e) => Err(e),
        }
    }
}

} // verus!
