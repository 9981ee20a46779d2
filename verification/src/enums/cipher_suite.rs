//! The registry of cipher suites.

use crate::registry::ProtocolEnum;
use vstd::prelude::*;
use vstd::std_specs::cmp::PartialEqSpecImpl;
use vstd::std_specs::convert::FromSpecImpl;

verus! {

/// A cipher suite. Only the suites listed first are shown by name in trace
/// output: the long tail after them is shown by code, though every entry
/// has a name, and encodes, decodes and compares like any other.
/// `Unknown` holds a code that has no name here.
#[allow(non_camel_case_types)]
#[non_exhaustive]
#[derive(Debug, Clone, Copy)]
pub enum CipherSuite {
    TLS_NULL_WITH_NULL_NULL,
    TLS_PSK_WITH_AES_128_GCM_SHA256,
    TLS_PSK_WITH_AES_256_GCM_SHA384,
    TLS_EMPTY_RENEGOTIATION_INFO_SCSV,
    TLS13_AES_128_GCM_SHA256,
    TLS13_AES_256_GCM_SHA384,
    TLS13_CHACHA20_POLY1305_SHA256,
    TLS13_AES_128_CCM_SHA256,
    TLS13_AES_128_CCM_8_SHA256,
    TLS_ECDHE_ECDSA_WITH_AES_128_CBC_SHA,
    TLS_ECDHE_ECDSA_WITH_AES_256_CBC_SHA,
    TLS_ECDHE_RSA_WITH_AES_128_CBC_SHA,
    TLS_ECDHE_RSA_WITH_AES_256_CBC_SHA,
    TLS_ECDHE_ECDSA_WITH_AES_128_CBC_SHA256,
    TLS_ECDHE_ECDSA_WITH_AES_256_CBC_SHA384,
    TLS_ECDHE_RSA_WITH_AES_128_CBC_SHA256,
    TLS_ECDHE_RSA_WITH_AES_256_CBC_SHA384,
    TLS_ECDHE_ECDSA_WITH_AES_128_GCM_SHA256,
    TLS_ECDHE_ECDSA_WITH_AES_256_GCM_SHA384,
    TLS_ECDHE_RSA_WITH_AES_128_GCM_SHA256,
    TLS_ECDHE_RSA_WITH_AES_256_GCM_SHA384,
    TLS_ECDHE_RSA_WITH_CHACHA20_POLY1305_SHA256,
    TLS_ECDHE_ECDSA_WITH_CHACHA20_POLY1305_SHA256,
    TLS_RSA_WITH_NULL_MD5,
    TLS_RSA_WITH_NULL_SHA,
    TLS_RSA_EXPORT_WITH_RC4_40_MD5,
    TLS_RSA_WITH_RC4_128_MD5,
    TLS_RSA_WITH_RC4_128_SHA,
    TLS_RSA_EXPORT_WITH_RC2_CBC_40_MD5,
    TLS_RSA_WITH_IDEA_CBC_SHA,
    TLS_RSA_EXPORT_WITH_DES40_CBC_SHA,
    TLS_RSA_WITH_DES_CBC_SHA,
    TLS_RSA_WITH_3DES_EDE_CBC_SHA,
    TLS_DH_DSS_EXPORT_WITH_DES40_CBC_SHA,
    TLS_DH_DSS_WITH_DES_CBC_SHA,
    TLS_DH_DSS_WITH_3DES_EDE_CBC_SHA,
    TLS_DH_RSA_EXPORT_WITH_DES40_CBC_SHA,
    TLS_DH_RSA_WITH_DES_CBC_SHA,
    TLS_DH_RSA_WITH_3DES_EDE_CBC_SHA,
    TLS_DHE_DSS_EXPORT_WITH_DES40_CBC_SHA,
    TLS_DHE_DSS_WITH_DES_CBC_SHA,
    TLS_DHE_DSS_WITH_3DES_EDE_CBC_SHA,
    TLS_DHE_RSA_EXPORT_WITH_DES40_CBC_SHA,
    TLS_DHE_RSA_WITH_DES_CBC_SHA,
    TLS_DHE_RSA_WITH_3DES_EDE_CBC_SHA,
    TLS_DH_anon_EXPORT_WITH_RC4_40_MD5,
    TLS_DH_anon_WITH_RC4_128_MD5,
    TLS_DH_anon_EXPORT_WITH_DES40_CBC_SHA,
    TLS_DH_anon_WITH_DES_CBC_SHA,
    TLS_DH_anon_WITH_3DES_EDE_CBC_SHA,
    SSL_FORTEZZA_KEA_WITH_NULL_SHA,
    SSL_FORTEZZA_KEA_WITH_FORTEZZA_CBC_SHA,
    TLS_KRB5_WITH_DES_CBC_SHA_or_SSL_FORTEZZA_KEA_WITH_RC4_128_SHA,
    TLS_KRB5_WITH_3DES_EDE_CBC_SHA,
    TLS_KRB5_WITH_RC4_128_SHA,
    TLS_KRB5_WITH_IDEA_CBC_SHA,
    TLS_KRB5_WITH_DES_CBC_MD5,
    TLS_KRB5_WITH_3DES_EDE_CBC_MD5,
    TLS_KRB5_WITH_RC4_128_MD5,
    TLS_KRB5_WITH_IDEA_CBC_MD5,
    TLS_KRB5_EXPORT_WITH_DES_CBC_40_SHA,
    TLS_KRB5_EXPORT_WITH_RC2_CBC_40_SHA,
    TLS_KRB5_EXPORT_WITH_RC4_40_SHA,
    TLS_KRB5_EXPORT_WITH_DES_CBC_40_MD5,
    TLS_KRB5_EXPORT_WITH_RC2_CBC_40_MD5,
    TLS_KRB5_EXPORT_WITH_RC4_40_MD5,
    TLS_PSK_WITH_NULL_SHA,
    TLS_DHE_PSK_WITH_NULL_SHA,
    TLS_RSA_PSK_WITH_NULL_SHA,
    TLS_RSA_WITH_AES_128_CBC_SHA,
    TLS_DH_DSS_WITH_AES_128_CBC_SHA,
    TLS_DH_RSA_WITH_AES_128_CBC_SHA,
    TLS_DHE_DSS_WITH_AES_128_CBC_SHA,
    TLS_DHE_RSA_WITH_AES_128_CBC_SHA,
    TLS_DH_anon_WITH_AES_128_CBC_SHA,
    TLS_RSA_WITH_AES_256_CBC_SHA,
    TLS_DH_DSS_WITH_AES_256_CBC_SHA,
    TLS_DH_RSA_WITH_AES_256_CBC_SHA,
    TLS_DHE_DSS_WITH_AES_256_CBC_SHA,
    TLS_DHE_RSA_WITH_AES_256_CBC_SHA,
    TLS_DH_anon_WITH_AES_256_CBC_SHA,
    TLS_RSA_WITH_NULL_SHA256,
    TLS_RSA_WITH_AES_128_CBC_SHA256,
    TLS_RSA_WITH_AES_256_CBC_SHA256,
    TLS_DH_DSS_WITH_AES_128_CBC_SHA256,
    TLS_DH_RSA_WITH_AES_128_CBC_SHA256,
    TLS_DHE_DSS_WITH_AES_128_CBC_SHA256,
    TLS_RSA_WITH_CAMELLIA_128_CBC_SHA,
    TLS_DH_DSS_WITH_CAMELLIA_128_CBC_SHA,
    TLS_DH_RSA_WITH_CAMELLIA_128_CBC_SHA,
    TLS_DHE_DSS_WITH_CAMELLIA_128_CBC_SHA,
    TLS_DHE_RSA_WITH_CAMELLIA_128_CBC_SHA,
    TLS_DH_anon_WITH_CAMELLIA_128_CBC_SHA,
    TLS_ECDH_ECDSA_WITH_NULL_SHA_draft,
    TLS_ECDH_ECDSA_WITH_RC4_128_SHA_draft,
    TLS_ECDH_ECDSA_WITH_DES_CBC_SHA_draft,
    TLS_ECDH_ECDSA_WITH_3DES_EDE_CBC_SHA_draft,
    TLS_ECDH_ECDSA_WITH_AES_128_CBC_SHA_draft,
    TLS_ECDH_ECDSA_WITH_AES_256_CBC_SHA_draft,
    TLS_ECDH_ECNRA_WITH_DES_CBC_SHA_draft,
    TLS_ECDH_ECNRA_WITH_3DES_EDE_CBC_SHA_draft,
    TLS_ECMQV_ECDSA_NULL_SHA_draft,
    TLS_ECMQV_ECDSA_WITH_RC4_128_SHA_draft,
    TLS_ECMQV_ECDSA_WITH_DES_CBC_SHA_draft,
    TLS_ECMQV_ECDSA_WITH_3DES_EDE_CBC_SHA_draft,
    TLS_ECMQV_ECNRA_NULL_SHA_draft,
    TLS_ECMQV_ECNRA_WITH_RC4_128_SHA_draft,
    TLS_ECMQV_ECNRA_WITH_DES_CBC_SHA_draft,
    TLS_ECMQV_ECNRA_WITH_3DES_EDE_CBC_SHA_draft,
    TLS_ECDH_anon_NULL_WITH_SHA_draft,
    TLS_ECDH_anon_WITH_RC4_128_SHA_draft,
    TLS_ECDH_anon_WITH_DES_CBC_SHA_draft,
    TLS_ECDH_anon_WITH_3DES_EDE_CBC_SHA_draft,
    TLS_ECDH_anon_EXPORT_WITH_DES40_CBC_SHA_draft,
    TLS_ECDH_anon_EXPORT_WITH_RC4_40_SHA_draft,
    TLS_RSA_EXPORT1024_WITH_RC4_56_MD5,
    TLS_RSA_EXPORT1024_WITH_RC2_CBC_56_MD5,
    TLS_RSA_EXPORT1024_WITH_DES_CBC_SHA,
    TLS_DHE_DSS_EXPORT1024_WITH_DES_CBC_SHA,
    TLS_RSA_EXPORT1024_WITH_RC4_56_SHA,
    TLS_DHE_DSS_EXPORT1024_WITH_RC4_56_SHA,
    TLS_DHE_DSS_WITH_RC4_128_SHA,
    TLS_DHE_RSA_WITH_AES_128_CBC_SHA256,
    TLS_DH_DSS_WITH_AES_256_CBC_SHA256,
    TLS_DH_RSA_WITH_AES_256_CBC_SHA256,
    TLS_DHE_DSS_WITH_AES_256_CBC_SHA256,
    TLS_DHE_RSA_WITH_AES_256_CBC_SHA256,
    TLS_DH_anon_WITH_AES_128_CBC_SHA256,
    TLS_DH_anon_WITH_AES_256_CBC_SHA256,
    TLS_DHE_DSS_WITH_3DES_EDE_CBC_RMD,
    TLS_DHE_DSS_WITH_AES_128_CBC_RMD,
    TLS_DHE_DSS_WITH_AES_256_CBC_RMD,
    TLS_DHE_RSA_WITH_3DES_EDE_CBC_RMD,
    TLS_DHE_RSA_WITH_AES_128_CBC_RMD,
    TLS_DHE_RSA_WITH_AES_256_CBC_RMD,
    TLS_RSA_WITH_3DES_EDE_CBC_RMD,
    TLS_RSA_WITH_AES_128_CBC_RMD,
    TLS_RSA_WITH_AES_256_CBC_RMD,
    TLS_GOSTR341094_WITH_28147_CNT_IMIT,
    TLS_GOSTR341001_WITH_28147_CNT_IMIT,
    TLS_GOSTR341094_WITH_NULL_GOSTR3411,
    TLS_GOSTR341001_WITH_NULL_GOSTR3411,
    TLS_RSA_WITH_CAMELLIA_256_CBC_SHA,
    TLS_DH_DSS_WITH_CAMELLIA_256_CBC_SHA,
    TLS_DH_RSA_WITH_CAMELLIA_256_CBC_SHA,
    TLS_DHE_DSS_WITH_CAMELLIA_256_CBC_SHA,
    TLS_DHE_RSA_WITH_CAMELLIA_256_CBC_SHA,
    TLS_DH_anon_WITH_CAMELLIA_256_CBC_SHA,
    TLS_PSK_WITH_RC4_128_SHA,
    TLS_PSK_WITH_3DES_EDE_CBC_SHA,
    TLS_PSK_WITH_AES_128_CBC_SHA,
    TLS_PSK_WITH_AES_256_CBC_SHA,
    TLS_DHE_PSK_WITH_RC4_128_SHA,
    TLS_DHE_PSK_WITH_3DES_EDE_CBC_SHA,
    TLS_DHE_PSK_WITH_AES_128_CBC_SHA,
    TLS_DHE_PSK_WITH_AES_256_CBC_SHA,
    TLS_RSA_PSK_WITH_RC4_128_SHA,
    TLS_RSA_PSK_WITH_3DES_EDE_CBC_SHA,
    TLS_RSA_PSK_WITH_AES_128_CBC_SHA,
    TLS_RSA_PSK_WITH_AES_256_CBC_SHA,
    TLS_RSA_WITH_SEED_CBC_SHA,
    TLS_DH_DSS_WITH_SEED_CBC_SHA,
    TLS_DH_RSA_WITH_SEED_CBC_SHA,
    TLS_DHE_DSS_WITH_SEED_CBC_SHA,
    TLS_DHE_RSA_WITH_SEED_CBC_SHA,
    TLS_DH_anon_WITH_SEED_CBC_SHA,
    TLS_RSA_WITH_AES_128_GCM_SHA256,
    TLS_RSA_WITH_AES_256_GCM_SHA384,
    TLS_DHE_RSA_WITH_AES_128_GCM_SHA256,
    TLS_DHE_RSA_WITH_AES_256_GCM_SHA384,
    TLS_DH_RSA_WITH_AES_128_GCM_SHA256,
    TLS_DH_RSA_WITH_AES_256_GCM_SHA384,
    TLS_DHE_DSS_WITH_AES_128_GCM_SHA256,
    TLS_DHE_DSS_WITH_AES_256_GCM_SHA384,
    TLS_DH_DSS_WITH_AES_128_GCM_SHA256,
    TLS_DH_DSS_WITH_AES_256_GCM_SHA384,
    TLS_DH_anon_WITH_AES_128_GCM_SHA256,
    TLS_DH_anon_WITH_AES_256_GCM_SHA384,
    TLS_DHE_PSK_WITH_AES_128_GCM_SHA256,
    TLS_DHE_PSK_WITH_AES_256_GCM_SHA384,
    TLS_RSA_PSK_WITH_AES_128_GCM_SHA256,
    TLS_RSA_PSK_WITH_AES_256_GCM_SHA384,
    TLS_PSK_WITH_AES_128_CBC_SHA256,
    TLS_PSK_WITH_AES_256_CBC_SHA384,
    TLS_PSK_WITH_NULL_SHA256,
    TLS_PSK_WITH_NULL_SHA384,
    TLS_DHE_PSK_WITH_AES_128_CBC_SHA256,
    TLS_DHE_PSK_WITH_AES_256_CBC_SHA384,
    TLS_DHE_PSK_WITH_NULL_SHA256,
    TLS_DHE_PSK_WITH_NULL_SHA384,
    TLS_RSA_PSK_WITH_AES_128_CBC_SHA256,
    TLS_RSA_PSK_WITH_AES_256_CBC_SHA384,
    TLS_RSA_PSK_WITH_NULL_SHA256,
    TLS_RSA_PSK_WITH_NULL_SHA384,
    TLS_RSA_WITH_CAMELLIA_128_CBC_SHA256,
    TLS_DH_DSS_WITH_CAMELLIA_128_CBC_SHA256,
    TLS_DH_RSA_WITH_CAMELLIA_128_CBC_SHA256,
    TLS_DHE_DSS_WITH_CAMELLIA_128_CBC_SHA256,
    TLS_DHE_RSA_WITH_CAMELLIA_128_CBC_SHA256,
    TLS_DH_anon_WITH_CAMELLIA_128_CBC_SHA256,
    TLS_RSA_WITH_CAMELLIA_256_CBC_SHA256,
    TLS_DH_DSS_WITH_CAMELLIA_256_CBC_SHA256,
    TLS_DH_RSA_WITH_CAMELLIA_256_CBC_SHA256,
    TLS_DHE_DSS_WITH_CAMELLIA_256_CBC_SHA256,
    TLS_DHE_RSA_WITH_CAMELLIA_256_CBC_SHA256,
    TLS_DH_anon_WITH_CAMELLIA_256_CBC_SHA256,
    TLS_ECDH_ECDSA_WITH_NULL_SHA,
    TLS_ECDH_ECDSA_WITH_RC4_128_SHA,
    TLS_ECDH_ECDSA_WITH_3DES_EDE_CBC_SHA,
    TLS_ECDH_ECDSA_WITH_AES_128_CBC_SHA,
    TLS_ECDH_ECDSA_WITH_AES_256_CBC_SHA,
    TLS_ECDHE_ECDSA_WITH_NULL_SHA,
    TLS_ECDHE_ECDSA_WITH_RC4_128_SHA,
    TLS_ECDHE_ECDSA_WITH_3DES_EDE_CBC_SHA,
    TLS_ECDH_RSA_WITH_NULL_SHA,
    TLS_ECDH_RSA_WITH_RC4_128_SHA,
    TLS_ECDH_RSA_WITH_3DES_EDE_CBC_SHA,
    TLS_ECDH_RSA_WITH_AES_128_CBC_SHA,
    TLS_ECDH_RSA_WITH_AES_256_CBC_SHA,
    TLS_ECDHE_RSA_WITH_NULL_SHA,
    TLS_ECDHE_RSA_WITH_RC4_128_SHA,
    TLS_ECDHE_RSA_WITH_3DES_EDE_CBC_SHA,
    TLS_ECDH_anon_WITH_NULL_SHA,
    TLS_ECDH_anon_WITH_RC4_128_SHA,
    TLS_ECDH_anon_WITH_3DES_EDE_CBC_SHA,
    TLS_ECDH_anon_WITH_AES_128_CBC_SHA,
    TLS_ECDH_anon_WITH_AES_256_CBC_SHA,
    TLS_SRP_SHA_WITH_3DES_EDE_CBC_SHA,
    TLS_SRP_SHA_RSA_WITH_3DES_EDE_CBC_SHA,
    TLS_SRP_SHA_DSS_WITH_3DES_EDE_CBC_SHA,
    TLS_SRP_SHA_WITH_AES_128_CBC_SHA,
    TLS_SRP_SHA_RSA_WITH_AES_128_CBC_SHA,
    TLS_SRP_SHA_DSS_WITH_AES_128_CBC_SHA,
    TLS_SRP_SHA_WITH_AES_256_CBC_SHA,
    TLS_SRP_SHA_RSA_WITH_AES_256_CBC_SHA,
    TLS_SRP_SHA_DSS_WITH_AES_256_CBC_SHA,
    TLS_ECDH_ECDSA_WITH_AES_128_CBC_SHA256,
    TLS_ECDH_ECDSA_WITH_AES_256_CBC_SHA384,
    TLS_ECDH_RSA_WITH_AES_128_CBC_SHA256,
    TLS_ECDH_RSA_WITH_AES_256_CBC_SHA384,
    TLS_ECDH_ECDSA_WITH_AES_128_GCM_SHA256,
    TLS_ECDH_ECDSA_WITH_AES_256_GCM_SHA384,
    TLS_ECDH_RSA_WITH_AES_128_GCM_SHA256,
    TLS_ECDH_RSA_WITH_AES_256_GCM_SHA384,
    TLS_ECDHE_PSK_WITH_RC4_128_SHA,
    TLS_ECDHE_PSK_WITH_3DES_EDE_CBC_SHA,
    TLS_ECDHE_PSK_WITH_AES_128_CBC_SHA,
    TLS_ECDHE_PSK_WITH_AES_256_CBC_SHA,
    TLS_ECDHE_PSK_WITH_AES_128_CBC_SHA256,
    TLS_ECDHE_PSK_WITH_AES_256_CBC_SHA384,
    TLS_ECDHE_PSK_WITH_NULL_SHA,
    TLS_ECDHE_PSK_WITH_NULL_SHA256,
    TLS_ECDHE_PSK_WITH_NULL_SHA384,
    TLS_RSA_WITH_ARIA_128_CBC_SHA256,
    TLS_RSA_WITH_ARIA_256_CBC_SHA384,
    TLS_DH_DSS_WITH_ARIA_128_CBC_SHA256,
    TLS_DH_DSS_WITH_ARIA_256_CBC_SHA384,
    TLS_DH_RSA_WITH_ARIA_128_CBC_SHA256,
    TLS_DH_RSA_WITH_ARIA_256_CBC_SHA384,
    TLS_DHE_DSS_WITH_ARIA_128_CBC_SHA256,
    TLS_DHE_DSS_WITH_ARIA_256_CBC_SHA384,
    TLS_DHE_RSA_WITH_ARIA_128_CBC_SHA256,
    TLS_DHE_RSA_WITH_ARIA_256_CBC_SHA384,
    TLS_DH_anon_WITH_ARIA_128_CBC_SHA256,
    TLS_DH_anon_WITH_ARIA_256_CBC_SHA384,
    TLS_ECDHE_ECDSA_WITH_ARIA_128_CBC_SHA256,
    TLS_ECDHE_ECDSA_WITH_ARIA_256_CBC_SHA384,
    TLS_ECDH_ECDSA_WITH_ARIA_128_CBC_SHA256,
    TLS_ECDH_ECDSA_WITH_ARIA_256_CBC_SHA384,
    TLS_ECDHE_RSA_WITH_ARIA_128_CBC_SHA256,
    TLS_ECDHE_RSA_WITH_ARIA_256_CBC_SHA384,
    TLS_ECDH_RSA_WITH_ARIA_128_CBC_SHA256,
    TLS_ECDH_RSA_WITH_ARIA_256_CBC_SHA384,
    TLS_RSA_WITH_ARIA_128_GCM_SHA256,
    TLS_RSA_WITH_ARIA_256_GCM_SHA384,
    TLS_DHE_RSA_WITH_ARIA_128_GCM_SHA256,
    TLS_DHE_RSA_WITH_ARIA_256_GCM_SHA384,
    TLS_DH_RSA_WITH_ARIA_128_GCM_SHA256,
    TLS_DH_RSA_WITH_ARIA_256_GCM_SHA384,
    TLS_DHE_DSS_WITH_ARIA_128_GCM_SHA256,
    TLS_DHE_DSS_WITH_ARIA_256_GCM_SHA384,
    TLS_DH_DSS_WITH_ARIA_128_GCM_SHA256,
    TLS_DH_DSS_WITH_ARIA_256_GCM_SHA384,
    TLS_DH_anon_WITH_ARIA_128_GCM_SHA256,
    TLS_DH_anon_WITH_ARIA_256_GCM_SHA384,
    TLS_ECDHE_ECDSA_WITH_ARIA_128_GCM_SHA256,
    TLS_ECDHE_ECDSA_WITH_ARIA_256_GCM_SHA384,
    TLS_ECDH_ECDSA_WITH_ARIA_128_GCM_SHA256,
    TLS_ECDH_ECDSA_WITH_ARIA_256_GCM_SHA384,
    TLS_ECDHE_RSA_WITH_ARIA_128_GCM_SHA256,
    TLS_ECDHE_RSA_WITH_ARIA_256_GCM_SHA384,
    TLS_ECDH_RSA_WITH_ARIA_128_GCM_SHA256,
    TLS_ECDH_RSA_WITH_ARIA_256_GCM_SHA384,
    TLS_PSK_WITH_ARIA_128_CBC_SHA256,
    TLS_PSK_WITH_ARIA_256_CBC_SHA384,
    TLS_DHE_PSK_WITH_ARIA_128_CBC_SHA256,
    TLS_DHE_PSK_WITH_ARIA_256_CBC_SHA384,
    TLS_RSA_PSK_WITH_ARIA_128_CBC_SHA256,
    TLS_RSA_PSK_WITH_ARIA_256_CBC_SHA384,
    TLS_PSK_WITH_ARIA_128_GCM_SHA256,
    TLS_PSK_WITH_ARIA_256_GCM_SHA384,
    TLS_DHE_PSK_WITH_ARIA_128_GCM_SHA256,
    TLS_DHE_PSK_WITH_ARIA_256_GCM_SHA384,
    TLS_RSA_PSK_WITH_ARIA_128_GCM_SHA256,
    TLS_RSA_PSK_WITH_ARIA_256_GCM_SHA384,
    TLS_ECDHE_PSK_WITH_ARIA_128_CBC_SHA256,
    TLS_ECDHE_PSK_WITH_ARIA_256_CBC_SHA384,
    TLS_ECDHE_ECDSA_WITH_CAMELLIA_128_CBC_SHA256,
    TLS_ECDHE_ECDSA_WITH_CAMELLIA_256_CBC_SHA384,
    TLS_ECDH_ECDSA_WITH_CAMELLIA_128_CBC_SHA256,
    TLS_ECDH_ECDSA_WITH_CAMELLIA_256_CBC_SHA384,
    TLS_ECDHE_RSA_WITH_CAMELLIA_128_CBC_SHA256,
    TLS_ECDHE_RSA_WITH_CAMELLIA_256_CBC_SHA384,
    TLS_ECDH_RSA_WITH_CAMELLIA_128_CBC_SHA256,
    TLS_ECDH_RSA_WITH_CAMELLIA_256_CBC_SHA384,
    TLS_RSA_WITH_CAMELLIA_128_GCM_SHA256,
    TLS_RSA_WITH_CAMELLIA_256_GCM_SHA384,
    TLS_DHE_RSA_WITH_CAMELLIA_128_GCM_SHA256,
    TLS_DHE_RSA_WITH_CAMELLIA_256_GCM_SHA384,
    TLS_DH_RSA_WITH_CAMELLIA_128_GCM_SHA256,
    TLS_DH_RSA_WITH_CAMELLIA_256_GCM_SHA384,
    TLS_DHE_DSS_WITH_CAMELLIA_128_GCM_SHA256,
    TLS_DHE_DSS_WITH_CAMELLIA_256_GCM_SHA384,
    TLS_DH_DSS_WITH_CAMELLIA_128_GCM_SHA256,
    TLS_DH_DSS_WITH_CAMELLIA_256_GCM_SHA384,
    TLS_DH_anon_WITH_CAMELLIA_128_GCM_SHA256,
    TLS_DH_anon_WITH_CAMELLIA_256_GCM_SHA384,
    TLS_ECDHE_ECDSA_WITH_CAMELLIA_128_GCM_SHA256,
    TLS_ECDHE_ECDSA_WITH_CAMELLIA_256_GCM_SHA384,
    TLS_ECDH_ECDSA_WITH_CAMELLIA_128_GCM_SHA256,
    TLS_ECDH_ECDSA_WITH_CAMELLIA_256_GCM_SHA384,
    TLS_ECDHE_RSA_WITH_CAMELLIA_128_GCM_SHA256,
    TLS_ECDHE_RSA_WITH_CAMELLIA_256_GCM_SHA384,
    TLS_ECDH_RSA_WITH_CAMELLIA_128_GCM_SHA256,
    TLS_ECDH_RSA_WITH_CAMELLIA_256_GCM_SHA384,
    TLS_PSK_WITH_CAMELLIA_128_GCM_SHA256,
    TLS_PSK_WITH_CAMELLIA_256_GCM_SHA384,
    TLS_DHE_PSK_WITH_CAMELLIA_128_GCM_SHA256,
    TLS_DHE_PSK_WITH_CAMELLIA_256_GCM_SHA384,
    TLS_RSA_PSK_WITH_CAMELLIA_128_GCM_SHA256,
    TLS_RSA_PSK_WITH_CAMELLIA_256_GCM_SHA384,
    TLS_PSK_WITH_CAMELLIA_128_CBC_SHA256,
    TLS_PSK_WITH_CAMELLIA_256_CBC_SHA384,
    TLS_DHE_PSK_WITH_CAMELLIA_128_CBC_SHA256,
    TLS_DHE_PSK_WITH_CAMELLIA_256_CBC_SHA384,
    TLS_RSA_PSK_WITH_CAMELLIA_128_CBC_SHA256,
    TLS_RSA_PSK_WITH_CAMELLIA_256_CBC_SHA384,
    TLS_ECDHE_PSK_WITH_CAMELLIA_128_CBC_SHA256,
    TLS_ECDHE_PSK_WITH_CAMELLIA_256_CBC_SHA384,
    TLS_RSA_WITH_AES_128_CCM,
    TLS_RSA_WITH_AES_256_CCM,
    TLS_DHE_RSA_WITH_AES_128_CCM,
    TLS_DHE_RSA_WITH_AES_256_CCM,
    TLS_RSA_WITH_AES_128_CCM_8,
    TLS_RSA_WITH_AES_256_CCM_8,
    TLS_DHE_RSA_WITH_AES_128_CCM_8,
    TLS_DHE_RSA_WITH_AES_256_CCM_8,
    TLS_PSK_WITH_AES_128_CCM,
    TLS_PSK_WITH_AES_256_CCM,
    TLS_DHE_PSK_WITH_AES_128_CCM,
    TLS_DHE_PSK_WITH_AES_256_CCM,
    TLS_PSK_WITH_AES_128_CCM_8,
    TLS_PSK_WITH_AES_256_CCM_8,
    TLS_PSK_DHE_WITH_AES_128_CCM_8,
    TLS_PSK_DHE_WITH_AES_256_CCM_8,
    TLS_ECDHE_ECDSA_WITH_AES_128_CCM,
    TLS_ECDHE_ECDSA_WITH_AES_256_CCM,
    TLS_ECDHE_ECDSA_WITH_AES_128_CCM_8,
    TLS_ECDHE_ECDSA_WITH_AES_256_CCM_8,
    TLS_DHE_RSA_WITH_CHACHA20_POLY1305_SHA256,
    TLS_PSK_WITH_CHACHA20_POLY1305_SHA256,
    TLS_ECDHE_PSK_WITH_CHACHA20_POLY1305_SHA256,
    TLS_DHE_PSK_WITH_CHACHA20_POLY1305_SHA256,
    TLS_RSA_PSK_WITH_CHACHA20_POLY1305_SHA256,
    SSL_RSA_FIPS_WITH_DES_CBC_SHA,
    SSL_RSA_FIPS_WITH_3DES_EDE_CBC_SHA,
    Unknown(u16),
}

impl ProtocolEnum for CipherSuite {
    type Code = u16;

    open spec fn spec_registry() -> &'static str {
        "CipherSuite"
    }

    open spec fn spec_code(self) -> u16 {
        match self {
            Self::TLS_NULL_WITH_NULL_NULL => 0x0000,
            Self::TLS_PSK_WITH_AES_128_GCM_SHA256 => 0x00a8,
            Self::TLS_PSK_WITH_AES_256_GCM_SHA384 => 0x00a9,
            Self::TLS_EMPTY_RENEGOTIATION_INFO_SCSV => 0x00ff,
            Self::TLS13_AES_128_GCM_SHA256 => 0x1301,
            Self::TLS13_AES_256_GCM_SHA384 => 0x1302,
            Self::TLS13_CHACHA20_POLY1305_SHA256 => 0x1303,
            Self::TLS13_AES_128_CCM_SHA256 => 0x1304,
            Self::TLS13_AES_128_CCM_8_SHA256 => 0x1305,
            Self::TLS_ECDHE_ECDSA_WITH_AES_128_CBC_SHA => 0xc009,
            Self::TLS_ECDHE_ECDSA_WITH_AES_256_CBC_SHA => 0xc00a,
            Self::TLS_ECDHE_RSA_WITH_AES_128_CBC_SHA => 0xc013,
            Self::TLS_ECDHE_RSA_WITH_AES_256_CBC_SHA => 0xc014,
            Self::TLS_ECDHE_ECDSA_WITH_AES_128_CBC_SHA256 => 0xc023,
            Self::TLS_ECDHE_ECDSA_WITH_AES_256_CBC_SHA384 => 0xc024,
            Self::TLS_ECDHE_RSA_WITH_AES_128_CBC_SHA256 => 0xc027,
            Self::TLS_ECDHE_RSA_WITH_AES_256_CBC_SHA384 => 0xc028,
            Self::TLS_ECDHE_ECDSA_WITH_AES_128_GCM_SHA256 => 0xc02b,
            Self::TLS_ECDHE_ECDSA_WITH_AES_256_GCM_SHA384 => 0xc02c,
            Self::TLS_ECDHE_RSA_WITH_AES_128_GCM_SHA256 => 0xc02f,
            Self::TLS_ECDHE_RSA_WITH_AES_256_GCM_SHA384 => 0xc030,
            Self::TLS_ECDHE_RSA_WITH_CHACHA20_POLY1305_SHA256 => 0xcca8,
            Self::TLS_ECDHE_ECDSA_WITH_CHACHA20_POLY1305_SHA256 => 0xcca9,
            Self::TLS_RSA_WITH_NULL_MD5 => 0x0001,
            Self::TLS_RSA_WITH_NULL_SHA => 0x0002,
            Self::TLS_RSA_EXPORT_WITH_RC4_40_MD5 => 0x0003,
            Self::TLS_RSA_WITH_RC4_128_MD5 => 0x0004,
            Self::TLS_RSA_WITH_RC4_128_SHA => 0x0005,
            Self::TLS_RSA_EXPORT_WITH_RC2_CBC_40_MD5 => 0x0006,
            Self::TLS_RSA_WITH_IDEA_CBC_SHA => 0x0007,
            Self::TLS_RSA_EXPORT_WITH_DES40_CBC_SHA => 0x0008,
            Self::TLS_RSA_WITH_DES_CBC_SHA => 0x0009,
            Self::TLS_RSA_WITH_3DES_EDE_CBC_SHA => 0x000a,
            Self::TLS_DH_DSS_EXPORT_WITH_DES40_CBC_SHA => 0x000b,
            Self::TLS_DH_DSS_WITH_DES_CBC_SHA => 0x000c,
            Self::TLS_DH_DSS_WITH_3DES_EDE_CBC_SHA => 0x000d,
            Self::TLS_DH_RSA_EXPORT_WITH_DES40_CBC_SHA => 0x000e,
            Self::TLS_DH_RSA_WITH_DES_CBC_SHA => 0x000f,
            Self::TLS_DH_RSA_WITH_3DES_EDE_CBC_SHA => 0x0010,
            Self::TLS_DHE_DSS_EXPORT_WITH_DES40_CBC_SHA => 0x0011,
            Self::TLS_DHE_DSS_WITH_DES_CBC_SHA => 0x0012,
            Self::TLS_DHE_DSS_WITH_3DES_EDE_CBC_SHA => 0x0013,
            Self::TLS_DHE_RSA_EXPORT_WITH_DES40_CBC_SHA => 0x0014,
            Self::TLS_DHE_RSA_WITH_DES_CBC_SHA => 0x0015,
            Self::TLS_DHE_RSA_WITH_3DES_EDE_CBC_SHA => 0x0016,
            Self::TLS_DH_anon_EXPORT_WITH_RC4_40_MD5 => 0x0017,
            Self::TLS_DH_anon_WITH_RC4_128_MD5 => 0x0018,
            Self::TLS_DH_anon_EXPORT_WITH_DES40_CBC_SHA => 0x0019,
            Self::TLS_DH_anon_WITH_DES_CBC_SHA => 0x001a,
            Self::TLS_DH_anon_WITH_3DES_EDE_CBC_SHA => 0x001b,
            Self::SSL_FORTEZZA_KEA_WITH_NULL_SHA => 0x001c,
            Self::SSL_FORTEZZA_KEA_WITH_FORTEZZA_CBC_SHA => 0x001d,
            Self::TLS_KRB5_WITH_DES_CBC_SHA_or_SSL_FORTEZZA_KEA_WITH_RC4_128_SHA => 0x001e,
            Self::TLS_KRB5_WITH_3DES_EDE_CBC_SHA => 0x001f,
            Self::TLS_KRB5_WITH_RC4_128_SHA => 0x0020,
            Self::TLS_KRB5_WITH_IDEA_CBC_SHA => 0x0021,
            Self::TLS_KRB5_WITH_DES_CBC_MD5 => 0x0022,
            Self::TLS_KRB5_WITH_3DES_EDE_CBC_MD5 => 0x0023,
            Self::TLS_KRB5_WITH_RC4_128_MD5 => 0x0024,
            Self::TLS_KRB5_WITH_IDEA_CBC_MD5 => 0x0025,
            Self::TLS_KRB5_EXPORT_WITH_DES_CBC_40_SHA => 0x0026,
            Self::TLS_KRB5_EXPORT_WITH_RC2_CBC_40_SHA => 0x0027,
            Self::TLS_KRB5_EXPORT_WITH_RC4_40_SHA => 0x0028,
            Self::TLS_KRB5_EXPORT_WITH_DES_CBC_40_MD5 => 0x0029,
            Self::TLS_KRB5_EXPORT_WITH_RC2_CBC_40_MD5 => 0x002a,
            Self::TLS_KRB5_EXPORT_WITH_RC4_40_MD5 => 0x002b,
            Self::TLS_PSK_WITH_NULL_SHA => 0x002c,
            Self::TLS_DHE_PSK_WITH_NULL_SHA => 0x002d,
            Self::TLS_RSA_PSK_WITH_NULL_SHA => 0x002e,
            Self::TLS_RSA_WITH_AES_128_CBC_SHA => 0x002f,
            Self::TLS_DH_DSS_WITH_AES_128_CBC_SHA => 0x0030,
            Self::TLS_DH_RSA_WITH_AES_128_CBC_SHA => 0x0031,
            Self::TLS_DHE_DSS_WITH_AES_128_CBC_SHA => 0x0032,
            Self::TLS_DHE_RSA_WITH_AES_128_CBC_SHA => 0x0033,
            Self::TLS_DH_anon_WITH_AES_128_CBC_SHA => 0x0034,
            Self::TLS_RSA_WITH_AES_256_CBC_SHA => 0x0035,
            Self::TLS_DH_DSS_WITH_AES_256_CBC_SHA => 0x0036,
            Self::TLS_DH_RSA_WITH_AES_256_CBC_SHA => 0x0037,
            Self::TLS_DHE_DSS_WITH_AES_256_CBC_SHA => 0x0038,
            Self::TLS_DHE_RSA_WITH_AES_256_CBC_SHA => 0x0039,
            Self::TLS_DH_anon_WITH_AES_256_CBC_SHA => 0x003a,
            Self::TLS_RSA_WITH_NULL_SHA256 => 0x003b,
            Self::TLS_RSA_WITH_AES_128_CBC_SHA256 => 0x003c,
            Self::TLS_RSA_WITH_AES_256_CBC_SHA256 => 0x003d,
            Self::TLS_DH_DSS_WITH_AES_128_CBC_SHA256 => 0x003e,
            Self::TLS_DH_RSA_WITH_AES_128_CBC_SHA256 => 0x003f,
            Self::TLS_DHE_DSS_WITH_AES_128_CBC_SHA256 => 0x0040,
            Self::TLS_RSA_WITH_CAMELLIA_128_CBC_SHA => 0x0041,
            Self::TLS_DH_DSS_WITH_CAMELLIA_128_CBC_SHA => 0x0042,
            Self::TLS_DH_RSA_WITH_CAMELLIA_128_CBC_SHA => 0x0043,
            Self::TLS_DHE_DSS_WITH_CAMELLIA_128_CBC_SHA => 0x0044,
            Self::TLS_DHE_RSA_WITH_CAMELLIA_128_CBC_SHA => 0x0045,
            Self::TLS_DH_anon_WITH_CAMELLIA_128_CBC_SHA => 0x0046,
            Self::TLS_ECDH_ECDSA_WITH_NULL_SHA_draft => 0x0047,
            Self::TLS_ECDH_ECDSA_WITH_RC4_128_SHA_draft => 0x0048,
            Self::TLS_ECDH_ECDSA_WITH_DES_CBC_SHA_draft => 0x0049,
            Self::TLS_ECDH_ECDSA_WITH_3DES_EDE_CBC_SHA_draft => 0x004a,
            Self::TLS_ECDH_ECDSA_WITH_AES_128_CBC_SHA_draft => 0x004b,
            Self::TLS_ECDH_ECDSA_WITH_AES_256_CBC_SHA_draft => 0x004c,
            Self::TLS_ECDH_ECNRA_WITH_DES_CBC_SHA_draft => 0x004d,
            Self::TLS_ECDH_ECNRA_WITH_3DES_EDE_CBC_SHA_draft => 0x004e,
            Self::TLS_ECMQV_ECDSA_NULL_SHA_draft => 0x004f,
            Self::TLS_ECMQV_ECDSA_WITH_RC4_128_SHA_draft => 0x0050,
            Self::TLS_ECMQV_ECDSA_WITH_DES_CBC_SHA_draft => 0x0051,
            Self::TLS_ECMQV_ECDSA_WITH_3DES_EDE_CBC_SHA_draft => 0x0052,
            Self::TLS_ECMQV_ECNRA_NULL_SHA_draft => 0x0053,
            Self::TLS_ECMQV_ECNRA_WITH_RC4_128_SHA_draft => 0x0054,
            Self::TLS_ECMQV_ECNRA_WITH_DES_CBC_SHA_draft => 0x0055,
            Self::TLS_ECMQV_ECNRA_WITH_3DES_EDE_CBC_SHA_draft => 0x0056,
            Self::TLS_ECDH_anon_NULL_WITH_SHA_draft => 0x0057,
            Self::TLS_ECDH_anon_WITH_RC4_128_SHA_draft => 0x0058,
            Self::TLS_ECDH_anon_WITH_DES_CBC_SHA_draft => 0x0059,
            Self::TLS_ECDH_anon_WITH_3DES_EDE_CBC_SHA_draft => 0x005a,
            Self::TLS_ECDH_anon_EXPORT_WITH_DES40_CBC_SHA_draft => 0x005b,
            Self::TLS_ECDH_anon_EXPORT_WITH_RC4_40_SHA_draft => 0x005c,
            Self::TLS_RSA_EXPORT1024_WITH_RC4_56_MD5 => 0x0060,
            Self::TLS_RSA_EXPORT1024_WITH_RC2_CBC_56_MD5 => 0x0061,
            Self::TLS_RSA_EXPORT1024_WITH_DES_CBC_SHA => 0x0062,
            Self::TLS_DHE_DSS_EXPORT1024_WITH_DES_CBC_SHA => 0x0063,
            Self::TLS_RSA_EXPORT1024_WITH_RC4_56_SHA => 0x0064,
            Self::TLS_DHE_DSS_EXPORT1024_WITH_RC4_56_SHA => 0x0065,
            Self::TLS_DHE_DSS_WITH_RC4_128_SHA => 0x0066,
            Self::TLS_DHE_RSA_WITH_AES_128_CBC_SHA256 => 0x0067,
            Self::TLS_DH_DSS_WITH_AES_256_CBC_SHA256 => 0x0068,
            Self::TLS_DH_RSA_WITH_AES_256_CBC_SHA256 => 0x0069,
            Self::TLS_DHE_DSS_WITH_AES_256_CBC_SHA256 => 0x006a,
            Self::TLS_DHE_RSA_WITH_AES_256_CBC_SHA256 => 0x006b,
            Self::TLS_DH_anon_WITH_AES_128_CBC_SHA256 => 0x006c,
            Self::TLS_DH_anon_WITH_AES_256_CBC_SHA256 => 0x006d,
            Self::TLS_DHE_DSS_WITH_3DES_EDE_CBC_RMD => 0x0072,
            Self::TLS_DHE_DSS_WITH_AES_128_CBC_RMD => 0x0073,
            Self::TLS_DHE_DSS_WITH_AES_256_CBC_RMD => 0x0074,
            Self::TLS_DHE_RSA_WITH_3DES_EDE_CBC_RMD => 0x0077,
            Self::TLS_DHE_RSA_WITH_AES_128_CBC_RMD => 0x0078,
            Self::TLS_DHE_RSA_WITH_AES_256_CBC_RMD => 0x0079,
            Self::TLS_RSA_WITH_3DES_EDE_CBC_RMD => 0x007c,
            Self::TLS_RSA_WITH_AES_128_CBC_RMD => 0x007d,
            Self::TLS_RSA_WITH_AES_256_CBC_RMD => 0x007e,
            Self::TLS_GOSTR341094_WITH_28147_CNT_IMIT => 0x0080,
            Self::TLS_GOSTR341001_WITH_28147_CNT_IMIT => 0x0081,
            Self::TLS_GOSTR341094_WITH_NULL_GOSTR3411 => 0x0082,
            Self::TLS_GOSTR341001_WITH_NULL_GOSTR3411 => 0x0083,
            Self::TLS_RSA_WITH_CAMELLIA_256_CBC_SHA => 0x0084,
            Self::TLS_DH_DSS_WITH_CAMELLIA_256_CBC_SHA => 0x0085,
            Self::TLS_DH_RSA_WITH_CAMELLIA_256_CBC_SHA => 0x0086,
            Self::TLS_DHE_DSS_WITH_CAMELLIA_256_CBC_SHA => 0x0087,
            Self::TLS_DHE_RSA_WITH_CAMELLIA_256_CBC_SHA => 0x0088,
            Self::TLS_DH_anon_WITH_CAMELLIA_256_CBC_SHA => 0x0089,
            Self::TLS_PSK_WITH_RC4_128_SHA => 0x008a,
            Self::TLS_PSK_WITH_3DES_EDE_CBC_SHA => 0x008b,
            Self::TLS_PSK_WITH_AES_128_CBC_SHA => 0x008c,
            Self::TLS_PSK_WITH_AES_256_CBC_SHA => 0x008d,
            Self::TLS_DHE_PSK_WITH_RC4_128_SHA => 0x008e,
            Self::TLS_DHE_PSK_WITH_3DES_EDE_CBC_SHA => 0x008f,
            Self::TLS_DHE_PSK_WITH_AES_128_CBC_SHA => 0x0090,
            Self::TLS_DHE_PSK_WITH_AES_256_CBC_SHA => 0x0091,
            Self::TLS_RSA_PSK_WITH_RC4_128_SHA => 0x0092,
            Self::TLS_RSA_PSK_WITH_3DES_EDE_CBC_SHA => 0x0093,
            Self::TLS_RSA_PSK_WITH_AES_128_CBC_SHA => 0x0094,
            Self::TLS_RSA_PSK_WITH_AES_256_CBC_SHA => 0x0095,
            Self::TLS_RSA_WITH_SEED_CBC_SHA => 0x0096,
            Self::TLS_DH_DSS_WITH_SEED_CBC_SHA => 0x0097,
            Self::TLS_DH_RSA_WITH_SEED_CBC_SHA => 0x0098,
            Self::TLS_DHE_DSS_WITH_SEED_CBC_SHA => 0x0099,
            Self::TLS_DHE_RSA_WITH_SEED_CBC_SHA => 0x009a,
            Self::TLS_DH_anon_WITH_SEED_CBC_SHA => 0x009b,
            Self::TLS_RSA_WITH_AES_128_GCM_SHA256 => 0x009c,
            Self::TLS_RSA_WITH_AES_256_GCM_SHA384 => 0x009d,
            Self::TLS_DHE_RSA_WITH_AES_128_GCM_SHA256 => 0x009e,
            Self::TLS_DHE_RSA_WITH_AES_256_GCM_SHA384 => 0x009f,
            Self::TLS_DH_RSA_WITH_AES_128_GCM_SHA256 => 0x00a0,
            Self::TLS_DH_RSA_WITH_AES_256_GCM_SHA384 => 0x00a1,
            Self::TLS_DHE_DSS_WITH_AES_128_GCM_SHA256 => 0x00a2,
            Self::TLS_DHE_DSS_WITH_AES_256_GCM_SHA384 => 0x00a3,
            Self::TLS_DH_DSS_WITH_AES_128_GCM_SHA256 => 0x00a4,
            Self::TLS_DH_DSS_WITH_AES_256_GCM_SHA384 => 0x00a5,
            Self::TLS_DH_anon_WITH_AES_128_GCM_SHA256 => 0x00a6,
            Self::TLS_DH_anon_WITH_AES_256_GCM_SHA384 => 0x00a7,
            Self::TLS_DHE_PSK_WITH_AES_128_GCM_SHA256 => 0x00aa,
            Self::TLS_DHE_PSK_WITH_AES_256_GCM_SHA384 => 0x00ab,
            Self::TLS_RSA_PSK_WITH_AES_128_GCM_SHA256 => 0x00ac,
            Self::TLS_RSA_PSK_WITH_AES_256_GCM_SHA384 => 0x00ad,
            Self::TLS_PSK_WITH_AES_128_CBC_SHA256 => 0x00ae,
            Self::TLS_PSK_WITH_AES_256_CBC_SHA384 => 0x00af,
            Self::TLS_PSK_WITH_NULL_SHA256 => 0x00b0,
            Self::TLS_PSK_WITH_NULL_SHA384 => 0x00b1,
            Self::TLS_DHE_PSK_WITH_AES_128_CBC_SHA256 => 0x00b2,
            Self::TLS_DHE_PSK_WITH_AES_256_CBC_SHA384 => 0x00b3,
            Self::TLS_DHE_PSK_WITH_NULL_SHA256 => 0x00b4,
            Self::TLS_DHE_PSK_WITH_NULL_SHA384 => 0x00b5,
            Self::TLS_RSA_PSK_WITH_AES_128_CBC_SHA256 => 0x00b6,
            Self::TLS_RSA_PSK_WITH_AES_256_CBC_SHA384 => 0x00b7,
            Self::TLS_RSA_PSK_WITH_NULL_SHA256 => 0x00b8,
            Self::TLS_RSA_PSK_WITH_NULL_SHA384 => 0x00b9,
            Self::TLS_RSA_WITH_CAMELLIA_128_CBC_SHA256 => 0x00ba,
            Self::TLS_DH_DSS_WITH_CAMELLIA_128_CBC_SHA256 => 0x00bb,
            Self::TLS_DH_RSA_WITH_CAMELLIA_128_CBC_SHA256 => 0x00bc,
            Self::TLS_DHE_DSS_WITH_CAMELLIA_128_CBC_SHA256 => 0x00bd,
            Self::TLS_DHE_RSA_WITH_CAMELLIA_128_CBC_SHA256 => 0x00be,
            Self::TLS_DH_anon_WITH_CAMELLIA_128_CBC_SHA256 => 0x00bf,
            Self::TLS_RSA_WITH_CAMELLIA_256_CBC_SHA256 => 0x00c0,
            Self::TLS_DH_DSS_WITH_CAMELLIA_256_CBC_SHA256 => 0x00c1,
            Self::TLS_DH_RSA_WITH_CAMELLIA_256_CBC_SHA256 => 0x00c2,
            Self::TLS_DHE_DSS_WITH_CAMELLIA_256_CBC_SHA256 => 0x00c3,
            Self::TLS_DHE_RSA_WITH_CAMELLIA_256_CBC_SHA256 => 0x00c4,
            Self::TLS_DH_anon_WITH_CAMELLIA_256_CBC_SHA256 => 0x00c5,
            Self::TLS_ECDH_ECDSA_WITH_NULL_SHA => 0xc001,
            Self::TLS_ECDH_ECDSA_WITH_RC4_128_SHA => 0xc002,
            Self::TLS_ECDH_ECDSA_WITH_3DES_EDE_CBC_SHA => 0xc003,
            Self::TLS_ECDH_ECDSA_WITH_AES_128_CBC_SHA => 0xc004,
            Self::TLS_ECDH_ECDSA_WITH_AES_256_CBC_SHA => 0xc005,
            Self::TLS_ECDHE_ECDSA_WITH_NULL_SHA => 0xc006,
            Self::TLS_ECDHE_ECDSA_WITH_RC4_128_SHA => 0xc007,
            Self::TLS_ECDHE_ECDSA_WITH_3DES_EDE_CBC_SHA => 0xc008,
            Self::TLS_ECDH_RSA_WITH_NULL_SHA => 0xc00b,
            Self::TLS_ECDH_RSA_WITH_RC4_128_SHA => 0xc00c,
            Self::TLS_ECDH_RSA_WITH_3DES_EDE_CBC_SHA => 0xc00d,
            Self::TLS_ECDH_RSA_WITH_AES_128_CBC_SHA => 0xc00e,
            Self::TLS_ECDH_RSA_WITH_AES_256_CBC_SHA => 0xc00f,
            Self::TLS_ECDHE_RSA_WITH_NULL_SHA => 0xc010,
            Self::TLS_ECDHE_RSA_WITH_RC4_128_SHA => 0xc011,
            Self::TLS_ECDHE_RSA_WITH_3DES_EDE_CBC_SHA => 0xc012,
            Self::TLS_ECDH_anon_WITH_NULL_SHA => 0xc015,
            Self::TLS_ECDH_anon_WITH_RC4_128_SHA => 0xc016,
            Self::TLS_ECDH_anon_WITH_3DES_EDE_CBC_SHA => 0xc017,
            Self::TLS_ECDH_anon_WITH_AES_128_CBC_SHA => 0xc018,
            Self::TLS_ECDH_anon_WITH_AES_256_CBC_SHA => 0xc019,
            Self::TLS_SRP_SHA_WITH_3DES_EDE_CBC_SHA => 0xc01a,
            Self::TLS_SRP_SHA_RSA_WITH_3DES_EDE_CBC_SHA => 0xc01b,
            Self::TLS_SRP_SHA_DSS_WITH_3DES_EDE_CBC_SHA => 0xc01c,
            Self::TLS_SRP_SHA_WITH_AES_128_CBC_SHA => 0xc01d,
            Self::TLS_SRP_SHA_RSA_WITH_AES_128_CBC_SHA => 0xc01e,
            Self::TLS_SRP_SHA_DSS_WITH_AES_128_CBC_SHA => 0xc01f,
            Self::TLS_SRP_SHA_WITH_AES_256_CBC_SHA => 0xc020,
            Self::TLS_SRP_SHA_RSA_WITH_AES_256_CBC_SHA => 0xc021,
            Self::TLS_SRP_SHA_DSS_WITH_AES_256_CBC_SHA => 0xc022,
            Self::TLS_ECDH_ECDSA_WITH_AES_128_CBC_SHA256 => 0xc025,
            Self::TLS_ECDH_ECDSA_WITH_AES_256_CBC_SHA384 => 0xc026,
            Self::TLS_ECDH_RSA_WITH_AES_128_CBC_SHA256 => 0xc029,
            Self::TLS_ECDH_RSA_WITH_AES_256_CBC_SHA384 => 0xc02a,
            Self::TLS_ECDH_ECDSA_WITH_AES_128_GCM_SHA256 => 0xc02d,
            Self::TLS_ECDH_ECDSA_WITH_AES_256_GCM_SHA384 => 0xc02e,
            Self::TLS_ECDH_RSA_WITH_AES_128_GCM_SHA256 => 0xc031,
            Self::TLS_ECDH_RSA_WITH_AES_256_GCM_SHA384 => 0xc032,
            Self::TLS_ECDHE_PSK_WITH_RC4_128_SHA => 0xc033,
            Self::TLS_ECDHE_PSK_WITH_3DES_EDE_CBC_SHA => 0xc034,
            Self::TLS_ECDHE_PSK_WITH_AES_128_CBC_SHA => 0xc035,
            Self::TLS_ECDHE_PSK_WITH_AES_256_CBC_SHA => 0xc036,
            Self::TLS_ECDHE_PSK_WITH_AES_128_CBC_SHA256 => 0xc037,
            Self::TLS_ECDHE_PSK_WITH_AES_256_CBC_SHA384 => 0xc038,
            Self::TLS_ECDHE_PSK_WITH_NULL_SHA => 0xc039,
            Self::TLS_ECDHE_PSK_WITH_NULL_SHA256 => 0xc03a,
            Self::TLS_ECDHE_PSK_WITH_NULL_SHA384 => 0xc03b,
            Self::TLS_RSA_WITH_ARIA_128_CBC_SHA256 => 0xc03c,
            Self::TLS_RSA_WITH_ARIA_256_CBC_SHA384 => 0xc03d,
            Self::TLS_DH_DSS_WITH_ARIA_128_CBC_SHA256 => 0xc03e,
            Self::TLS_DH_DSS_WITH_ARIA_256_CBC_SHA384 => 0xc03f,
            Self::TLS_DH_RSA_WITH_ARIA_128_CBC_SHA256 => 0xc040,
            Self::TLS_DH_RSA_WITH_ARIA_256_CBC_SHA384 => 0xc041,
            Self::TLS_DHE_DSS_WITH_ARIA_128_CBC_SHA256 => 0xc042,
            Self::TLS_DHE_DSS_WITH_ARIA_256_CBC_SHA384 => 0xc043,
            Self::TLS_DHE_RSA_WITH_ARIA_128_CBC_SHA256 => 0xc044,
            Self::TLS_DHE_RSA_WITH_ARIA_256_CBC_SHA384 => 0xc045,
            Self::TLS_DH_anon_WITH_ARIA_128_CBC_SHA256 => 0xc046,
            Self::TLS_DH_anon_WITH_ARIA_256_CBC_SHA384 => 0xc047,
            Self::TLS_ECDHE_ECDSA_WITH_ARIA_128_CBC_SHA256 => 0xc048,
            Self::TLS_ECDHE_ECDSA_WITH_ARIA_256_CBC_SHA384 => 0xc049,
            Self::TLS_ECDH_ECDSA_WITH_ARIA_128_CBC_SHA256 => 0xc04a,
            Self::TLS_ECDH_ECDSA_WITH_ARIA_256_CBC_SHA384 => 0xc04b,
            Self::TLS_ECDHE_RSA_WITH_ARIA_128_CBC_SHA256 => 0xc04c,
            Self::TLS_ECDHE_RSA_WITH_ARIA_256_CBC_SHA384 => 0xc04d,
            Self::TLS_ECDH_RSA_WITH_ARIA_128_CBC_SHA256 => 0xc04e,
            Self::TLS_ECDH_RSA_WITH_ARIA_256_CBC_SHA384 => 0xc04f,
            Self::TLS_RSA_WITH_ARIA_128_GCM_SHA256 => 0xc050,
            Self::TLS_RSA_WITH_ARIA_256_GCM_SHA384 => 0xc051,
            Self::TLS_DHE_RSA_WITH_ARIA_128_GCM_SHA256 => 0xc052,
            Self::TLS_DHE_RSA_WITH_ARIA_256_GCM_SHA384 => 0xc053,
            Self::TLS_DH_RSA_WITH_ARIA_128_GCM_SHA256 => 0xc054,
            Self::TLS_DH_RSA_WITH_ARIA_256_GCM_SHA384 => 0xc055,
            Self::TLS_DHE_DSS_WITH_ARIA_128_GCM_SHA256 => 0xc056,
            Self::TLS_DHE_DSS_WITH_ARIA_256_GCM_SHA384 => 0xc057,
            Self::TLS_DH_DSS_WITH_ARIA_128_GCM_SHA256 => 0xc058,
            Self::TLS_DH_DSS_WITH_ARIA_256_GCM_SHA384 => 0xc059,
            Self::TLS_DH_anon_WITH_ARIA_128_GCM_SHA256 => 0xc05a,
            Self::TLS_DH_anon_WITH_ARIA_256_GCM_SHA384 => 0xc05b,
            Self::TLS_ECDHE_ECDSA_WITH_ARIA_128_GCM_SHA256 => 0xc05c,
            Self::TLS_ECDHE_ECDSA_WITH_ARIA_256_GCM_SHA384 => 0xc05d,
            Self::TLS_ECDH_ECDSA_WITH_ARIA_128_GCM_SHA256 => 0xc05e,
            Self::TLS_ECDH_ECDSA_WITH_ARIA_256_GCM_SHA384 => 0xc05f,
            Self::TLS_ECDHE_RSA_WITH_ARIA_128_GCM_SHA256 => 0xc060,
            Self::TLS_ECDHE_RSA_WITH_ARIA_256_GCM_SHA384 => 0xc061,
            Self::TLS_ECDH_RSA_WITH_ARIA_128_GCM_SHA256 => 0xc062,
            Self::TLS_ECDH_RSA_WITH_ARIA_256_GCM_SHA384 => 0xc063,
            Self::TLS_PSK_WITH_ARIA_128_CBC_SHA256 => 0xc064,
            Self::TLS_PSK_WITH_ARIA_256_CBC_SHA384 => 0xc065,
            Self::TLS_DHE_PSK_WITH_ARIA_128_CBC_SHA256 => 0xc066,
            Self::TLS_DHE_PSK_WITH_ARIA_256_CBC_SHA384 => 0xc067,
            Self::TLS_RSA_PSK_WITH_ARIA_128_CBC_SHA256 => 0xc068,
            Self::TLS_RSA_PSK_WITH_ARIA_256_CBC_SHA384 => 0xc069,
            Self::TLS_PSK_WITH_ARIA_128_GCM_SHA256 => 0xc06a,
            Self::TLS_PSK_WITH_ARIA_256_GCM_SHA384 => 0xc06b,
            Self::TLS_DHE_PSK_WITH_ARIA_128_GCM_SHA256 => 0xc06c,
            Self::TLS_DHE_PSK_WITH_ARIA_256_GCM_SHA384 => 0xc06d,
            Self::TLS_RSA_PSK_WITH_ARIA_128_GCM_SHA256 => 0xc06e,
            Self::TLS_RSA_PSK_WITH_ARIA_256_GCM_SHA384 => 0xc06f,
            Self::TLS_ECDHE_PSK_WITH_ARIA_128_CBC_SHA256 => 0xc070,
            Self::TLS_ECDHE_PSK_WITH_ARIA_256_CBC_SHA384 => 0xc071,
            Self::TLS_ECDHE_ECDSA_WITH_CAMELLIA_128_CBC_SHA256 => 0xc072,
            Self::TLS_ECDHE_ECDSA_WITH_CAMELLIA_256_CBC_SHA384 => 0xc073,
            Self::TLS_ECDH_ECDSA_WITH_CAMELLIA_128_CBC_SHA256 => 0xc074,
            Self::TLS_ECDH_ECDSA_WITH_CAMELLIA_256_CBC_SHA384 => 0xc075,
            Self::TLS_ECDHE_RSA_WITH_CAMELLIA_128_CBC_SHA256 => 0xc076,
            Self::TLS_ECDHE_RSA_WITH_CAMELLIA_256_CBC_SHA384 => 0xc077,
            Self::TLS_ECDH_RSA_WITH_CAMELLIA_128_CBC_SHA256 => 0xc078,
            Self::TLS_ECDH_RSA_WITH_CAMELLIA_256_CBC_SHA384 => 0xc079,
            Self::TLS_RSA_WITH_CAMELLIA_128_GCM_SHA256 => 0xc07a,
            Self::TLS_RSA_WITH_CAMELLIA_256_GCM_SHA384 => 0xc07b,
            Self::TLS_DHE_RSA_WITH_CAMELLIA_128_GCM_SHA256 => 0xc07c,
            Self::TLS_DHE_RSA_WITH_CAMELLIA_256_GCM_SHA384 => 0xc07d,
            Self::TLS_DH_RSA_WITH_CAMELLIA_128_GCM_SHA256 => 0xc07e,
            Self::TLS_DH_RSA_WITH_CAMELLIA_256_GCM_SHA384 => 0xc07f,
            Self::TLS_DHE_DSS_WITH_CAMELLIA_128_GCM_SHA256 => 0xc080,
            Self::TLS_DHE_DSS_WITH_CAMELLIA_256_GCM_SHA384 => 0xc081,
            Self::TLS_DH_DSS_WITH_CAMELLIA_128_GCM_SHA256 => 0xc082,
            Self::TLS_DH_DSS_WITH_CAMELLIA_256_GCM_SHA384 => 0xc083,
            Self::TLS_DH_anon_WITH_CAMELLIA_128_GCM_SHA256 => 0xc084,
            Self::TLS_DH_anon_WITH_CAMELLIA_256_GCM_SHA384 => 0xc085,
            Self::TLS_ECDHE_ECDSA_WITH_CAMELLIA_128_GCM_SHA256 => 0xc086,
            Self::TLS_ECDHE_ECDSA_WITH_CAMELLIA_256_GCM_SHA384 => 0xc087,
            Self::TLS_ECDH_ECDSA_WITH_CAMELLIA_128_GCM_SHA256 => 0xc088,
            Self::TLS_ECDH_ECDSA_WITH_CAMELLIA_256_GCM_SHA384 => 0xc089,
            Self::TLS_ECDHE_RSA_WITH_CAMELLIA_128_GCM_SHA256 => 0xc08a,
            Self::TLS_ECDHE_RSA_WITH_CAMELLIA_256_GCM_SHA384 => 0xc08b,
            Self::TLS_ECDH_RSA_WITH_CAMELLIA_128_GCM_SHA256 => 0xc08c,
            Self::TLS_ECDH_RSA_WITH_CAMELLIA_256_GCM_SHA384 => 0xc08d,
            Self::TLS_PSK_WITH_CAMELLIA_128_GCM_SHA256 => 0xc08e,
            Self::TLS_PSK_WITH_CAMELLIA_256_GCM_SHA384 => 0xc08f,
            Self::TLS_DHE_PSK_WITH_CAMELLIA_128_GCM_SHA256 => 0xc090,
            Self::TLS_DHE_PSK_WITH_CAMELLIA_256_GCM_SHA384 => 0xc091,
            Self::TLS_RSA_PSK_WITH_CAMELLIA_128_GCM_SHA256 => 0xc092,
            Self::TLS_RSA_PSK_WITH_CAMELLIA_256_GCM_SHA384 => 0xc093,
            Self::TLS_PSK_WITH_CAMELLIA_128_CBC_SHA256 => 0xc094,
            Self::TLS_PSK_WITH_CAMELLIA_256_CBC_SHA384 => 0xc095,
            Self::TLS_DHE_PSK_WITH_CAMELLIA_128_CBC_SHA256 => 0xc096,
            Self::TLS_DHE_PSK_WITH_CAMELLIA_256_CBC_SHA384 => 0xc097,
            Self::TLS_RSA_PSK_WITH_CAMELLIA_128_CBC_SHA256 => 0xc098,
            Self::TLS_RSA_PSK_WITH_CAMELLIA_256_CBC_SHA384 => 0xc099,
            Self::TLS_ECDHE_PSK_WITH_CAMELLIA_128_CBC_SHA256 => 0xc09a,
            Self::TLS_ECDHE_PSK_WITH_CAMELLIA_256_CBC_SHA384 => 0xc09b,
            Self::TLS_RSA_WITH_AES_128_CCM => 0xc09c,
            Self::TLS_RSA_WITH_AES_256_CCM => 0xc09d,
            Self::TLS_DHE_RSA_WITH_AES_128_CCM => 0xc09e,
            Self::TLS_DHE_RSA_WITH_AES_256_CCM => 0xc09f,
            Self::TLS_RSA_WITH_AES_128_CCM_8 => 0xc0a0,
            Self::TLS_RSA_WITH_AES_256_CCM_8 => 0xc0a1,
            Self::TLS_DHE_RSA_WITH_AES_128_CCM_8 => 0xc0a2,
            Self::TLS_DHE_RSA_WITH_AES_256_CCM_8 => 0xc0a3,
            Self::TLS_PSK_WITH_AES_128_CCM => 0xc0a4,
            Self::TLS_PSK_WITH_AES_256_CCM => 0xc0a5,
            Self::TLS_DHE_PSK_WITH_AES_128_CCM => 0xc0a6,
            Self::TLS_DHE_PSK_WITH_AES_256_CCM => 0xc0a7,
            Self::TLS_PSK_WITH_AES_128_CCM_8 => 0xc0a8,
            Self::TLS_PSK_WITH_AES_256_CCM_8 => 0xc0a9,
            Self::TLS_PSK_DHE_WITH_AES_128_CCM_8 => 0xc0aa,
            Self::TLS_PSK_DHE_WITH_AES_256_CCM_8 => 0xc0ab,
            Self::TLS_ECDHE_ECDSA_WITH_AES_128_CCM => 0xc0ac,
            Self::TLS_ECDHE_ECDSA_WITH_AES_256_CCM => 0xc0ad,
            Self::TLS_ECDHE_ECDSA_WITH_AES_128_CCM_8 => 0xc0ae,
            Self::TLS_ECDHE_ECDSA_WITH_AES_256_CCM_8 => 0xc0af,
            Self::TLS_DHE_RSA_WITH_CHACHA20_POLY1305_SHA256 => 0xccaa,
            Self::TLS_PSK_WITH_CHACHA20_POLY1305_SHA256 => 0xccab,
            Self::TLS_ECDHE_PSK_WITH_CHACHA20_POLY1305_SHA256 => 0xccac,
            Self::TLS_DHE_PSK_WITH_CHACHA20_POLY1305_SHA256 => 0xccad,
            Self::TLS_RSA_PSK_WITH_CHACHA20_POLY1305_SHA256 => 0xccae,
            Self::SSL_RSA_FIPS_WITH_DES_CBC_SHA => 0xfefe,
            Self::SSL_RSA_FIPS_WITH_3DES_EDE_CBC_SHA => 0xfeff,
            Self::Unknown(code) => code,
        }
    }

    open spec fn spec_from_code(code: u16) -> Self {
        match code {
            0x0000 => Self::TLS_NULL_WITH_NULL_NULL,
            0x00a8 => Self::TLS_PSK_WITH_AES_128_GCM_SHA256,
            0x00a9 => Self::TLS_PSK_WITH_AES_256_GCM_SHA384,
            0x00ff => Self::TLS_EMPTY_RENEGOTIATION_INFO_SCSV,
            0x1301 => Self::TLS13_AES_128_GCM_SHA256,
            0x1302 => Self::TLS13_AES_256_GCM_SHA384,
            0x1303 => Self::TLS13_CHACHA20_POLY1305_SHA256,
            0x1304 => Self::TLS13_AES_128_CCM_SHA256,
            0x1305 => Self::TLS13_AES_128_CCM_8_SHA256,
            0xc009 => Self::TLS_ECDHE_ECDSA_WITH_AES_128_CBC_SHA,
            0xc00a => Self::TLS_ECDHE_ECDSA_WITH_AES_256_CBC_SHA,
            0xc013 => Self::TLS_ECDHE_RSA_WITH_AES_128_CBC_SHA,
            0xc014 => Self::TLS_ECDHE_RSA_WITH_AES_256_CBC_SHA,
            0xc023 => Self::TLS_ECDHE_ECDSA_WITH_AES_128_CBC_SHA256,
            0xc024 => Self::TLS_ECDHE_ECDSA_WITH_AES_256_CBC_SHA384,
            0xc027 => Self::TLS_ECDHE_RSA_WITH_AES_128_CBC_SHA256,
            0xc028 => Self::TLS_ECDHE_RSA_WITH_AES_256_CBC_SHA384,
            0xc02b => Self::TLS_ECDHE_ECDSA_WITH_AES_128_GCM_SHA256,
            0xc02c => Self::TLS_ECDHE_ECDSA_WITH_AES_256_GCM_SHA384,
            0xc02f => Self::TLS_ECDHE_RSA_WITH_AES_128_GCM_SHA256,
            0xc030 => Self::TLS_ECDHE_RSA_WITH_AES_256_GCM_SHA384,
            0xcca8 => Self::TLS_ECDHE_RSA_WITH_CHACHA20_POLY1305_SHA256,
            0xcca9 => Self::TLS_ECDHE_ECDSA_WITH_CHACHA20_POLY1305_SHA256,
            0x0001 => Self::TLS_RSA_WITH_NULL_MD5,
            0x0002 => Self::TLS_RSA_WITH_NULL_SHA,
            0x0003 => Self::TLS_RSA_EXPORT_WITH_RC4_40_MD5,
            0x0004 => Self::TLS_RSA_WITH_RC4_128_MD5,
            0x0005 => Self::TLS_RSA_WITH_RC4_128_SHA,
            0x0006 => Self::TLS_RSA_EXPORT_WITH_RC2_CBC_40_MD5,
            0x0007 => Self::TLS_RSA_WITH_IDEA_CBC_SHA,
            0x0008 => Self::TLS_RSA_EXPORT_WITH_DES40_CBC_SHA,
            0x0009 => Self::TLS_RSA_WITH_DES_CBC_SHA,
            0x000a => Self::TLS_RSA_WITH_3DES_EDE_CBC_SHA,
            0x000b => Self::TLS_DH_DSS_EXPORT_WITH_DES40_CBC_SHA,
            0x000c => Self::TLS_DH_DSS_WITH_DES_CBC_SHA,
            0x000d => Self::TLS_DH_DSS_WITH_3DES_EDE_CBC_SHA,
            0x000e => Self::TLS_DH_RSA_EXPORT_WITH_DES40_CBC_SHA,
            0x000f => Self::TLS_DH_RSA_WITH_DES_CBC_SHA,
            0x0010 => Self::TLS_DH_RSA_WITH_3DES_EDE_CBC_SHA,
            0x0011 => Self::TLS_DHE_DSS_EXPORT_WITH_DES40_CBC_SHA,
            0x0012 => Self::TLS_DHE_DSS_WITH_DES_CBC_SHA,
            0x0013 => Self::TLS_DHE_DSS_WITH_3DES_EDE_CBC_SHA,
            0x0014 => Self::TLS_DHE_RSA_EXPORT_WITH_DES40_CBC_SHA,
            0x0015 => Self::TLS_DHE_RSA_WITH_DES_CBC_SHA,
            0x0016 => Self::TLS_DHE_RSA_WITH_3DES_EDE_CBC_SHA,
            0x0017 => Self::TLS_DH_anon_EXPORT_WITH_RC4_40_MD5,
            0x0018 => Self::TLS_DH_anon_WITH_RC4_128_MD5,
            0x0019 => Self::TLS_DH_anon_EXPORT_WITH_DES40_CBC_SHA,
            0x001a => Self::TLS_DH_anon_WITH_DES_CBC_SHA,
            0x001b => Self::TLS_DH_anon_WITH_3DES_EDE_CBC_SHA,
            0x001c => Self::SSL_FORTEZZA_KEA_WITH_NULL_SHA,
            0x001d => Self::SSL_FORTEZZA_KEA_WITH_FORTEZZA_CBC_SHA,
            0x001e => Self::TLS_KRB5_WITH_DES_CBC_SHA_or_SSL_FORTEZZA_KEA_WITH_RC4_128_SHA,
            0x001f => Self::TLS_KRB5_WITH_3DES_EDE_CBC_SHA,
            0x0020 => Self::TLS_KRB5_WITH_RC4_128_SHA,
            0x0021 => Self::TLS_KRB5_WITH_IDEA_CBC_SHA,
            0x0022 => Self::TLS_KRB5_WITH_DES_CBC_MD5,
            0x0023 => Self::TLS_KRB5_WITH_3DES_EDE_CBC_MD5,
            0x0024 => Self::TLS_KRB5_WITH_RC4_128_MD5,
            0x0025 => Self::TLS_KRB5_WITH_IDEA_CBC_MD5,
            0x0026 => Self::TLS_KRB5_EXPORT_WITH_DES_CBC_40_SHA,
            0x0027 => Self::TLS_KRB5_EXPORT_WITH_RC2_CBC_40_SHA,
            0x0028 => Self::TLS_KRB5_EXPORT_WITH_RC4_40_SHA,
            0x0029 => Self::TLS_KRB5_EXPORT_WITH_DES_CBC_40_MD5,
            0x002a => Self::TLS_KRB5_EXPORT_WITH_RC2_CBC_40_MD5,
            0x002b => Self::TLS_KRB5_EXPORT_WITH_RC4_40_MD5,
            0x002c => Self::TLS_PSK_WITH_NULL_SHA,
            0x002d => Self::TLS_DHE_PSK_WITH_NULL_SHA,
            0x002e => Self::TLS_RSA_PSK_WITH_NULL_SHA,
            0x002f => Self::TLS_RSA_WITH_AES_128_CBC_SHA,
            0x0030 => Self::TLS_DH_DSS_WITH_AES_128_CBC_SHA,
            0x0031 => Self::TLS_DH_RSA_WITH_AES_128_CBC_SHA,
            0x0032 => Self::TLS_DHE_DSS_WITH_AES_128_CBC_SHA,
            0x0033 => Self::TLS_DHE_RSA_WITH_AES_128_CBC_SHA,
            0x0034 => Self::TLS_DH_anon_WITH_AES_128_CBC_SHA,
            0x0035 => Self::TLS_RSA_WITH_AES_256_CBC_SHA,
            0x0036 => Self::TLS_DH_DSS_WITH_AES_256_CBC_SHA,
            0x0037 => Self::TLS_DH_RSA_WITH_AES_256_CBC_SHA,
            0x0038 => Self::TLS_DHE_DSS_WITH_AES_256_CBC_SHA,
            0x0039 => Self::TLS_DHE_RSA_WITH_AES_256_CBC_SHA,
            0x003a => Self::TLS_DH_anon_WITH_AES_256_CBC_SHA,
            0x003b => Self::TLS_RSA_WITH_NULL_SHA256,
            0x003c => Self::TLS_RSA_WITH_AES_128_CBC_SHA256,
            0x003d => Self::TLS_RSA_WITH_AES_256_CBC_SHA256,
            0x003e => Self::TLS_DH_DSS_WITH_AES_128_CBC_SHA256,
            0x003f => Self::TLS_DH_RSA_WITH_AES_128_CBC_SHA256,
            0x0040 => Self::TLS_DHE_DSS_WITH_AES_128_CBC_SHA256,
            0x0041 => Self::TLS_RSA_WITH_CAMELLIA_128_CBC_SHA,
            0x0042 => Self::TLS_DH_DSS_WITH_CAMELLIA_128_CBC_SHA,
            0x0043 => Self::TLS_DH_RSA_WITH_CAMELLIA_128_CBC_SHA,
            0x0044 => Self::TLS_DHE_DSS_WITH_CAMELLIA_128_CBC_SHA,
            0x0045 => Self::TLS_DHE_RSA_WITH_CAMELLIA_128_CBC_SHA,
            0x0046 => Self::TLS_DH_anon_WITH_CAMELLIA_128_CBC_SHA,
            0x0047 => Self::TLS_ECDH_ECDSA_WITH_NULL_SHA_draft,
            0x0048 => Self::TLS_ECDH_ECDSA_WITH_RC4_128_SHA_draft,
            0x0049 => Self::TLS_ECDH_ECDSA_WITH_DES_CBC_SHA_draft,
            0x004a => Self::TLS_ECDH_ECDSA_WITH_3DES_EDE_CBC_SHA_draft,
            0x004b => Self::TLS_ECDH_ECDSA_WITH_AES_128_CBC_SHA_draft,
            0x004c => Self::TLS_ECDH_ECDSA_WITH_AES_256_CBC_SHA_draft,
            0x004d => Self::TLS_ECDH_ECNRA_WITH_DES_CBC_SHA_draft,
            0x004e => Self::TLS_ECDH_ECNRA_WITH_3DES_EDE_CBC_SHA_draft,
            0x004f => Self::TLS_ECMQV_ECDSA_NULL_SHA_draft,
            0x0050 => Self::TLS_ECMQV_ECDSA_WITH_RC4_128_SHA_draft,
            0x0051 => Self::TLS_ECMQV_ECDSA_WITH_DES_CBC_SHA_draft,
            0x0052 => Self::TLS_ECMQV_ECDSA_WITH_3DES_EDE_CBC_SHA_draft,
            0x0053 => Self::TLS_ECMQV_ECNRA_NULL_SHA_draft,
            0x0054 => Self::TLS_ECMQV_ECNRA_WITH_RC4_128_SHA_draft,
            0x0055 => Self::TLS_ECMQV_ECNRA_WITH_DES_CBC_SHA_draft,
            0x0056 => Self::TLS_ECMQV_ECNRA_WITH_3DES_EDE_CBC_SHA_draft,
            0x0057 => Self::TLS_ECDH_anon_NULL_WITH_SHA_draft,
            0x0058 => Self::TLS_ECDH_anon_WITH_RC4_128_SHA_draft,
            0x0059 => Self::TLS_ECDH_anon_WITH_DES_CBC_SHA_draft,
            0x005a => Self::TLS_ECDH_anon_WITH_3DES_EDE_CBC_SHA_draft,
            0x005b => Self::TLS_ECDH_anon_EXPORT_WITH_DES40_CBC_SHA_draft,
            0x005c => Self::TLS_ECDH_anon_EXPORT_WITH_RC4_40_SHA_draft,
            0x0060 => Self::TLS_RSA_EXPORT1024_WITH_RC4_56_MD5,
            0x0061 => Self::TLS_RSA_EXPORT1024_WITH_RC2_CBC_56_MD5,
            0x0062 => Self::TLS_RSA_EXPORT1024_WITH_DES_CBC_SHA,
            0x0063 => Self::TLS_DHE_DSS_EXPORT1024_WITH_DES_CBC_SHA,
            0x0064 => Self::TLS_RSA_EXPORT1024_WITH_RC4_56_SHA,
            0x0065 => Self::TLS_DHE_DSS_EXPORT1024_WITH_RC4_56_SHA,
            0x0066 => Self::TLS_DHE_DSS_WITH_RC4_128_SHA,
            0x0067 => Self::TLS_DHE_RSA_WITH_AES_128_CBC_SHA256,
            0x0068 => Self::TLS_DH_DSS_WITH_AES_256_CBC_SHA256,
            0x0069 => Self::TLS_DH_RSA_WITH_AES_256_CBC_SHA256,
            0x006a => Self::TLS_DHE_DSS_WITH_AES_256_CBC_SHA256,
            0x006b => Self::TLS_DHE_RSA_WITH_AES_256_CBC_SHA256,
            0x006c => Self::TLS_DH_anon_WITH_AES_128_CBC_SHA256,
            0x006d => Self::TLS_DH_anon_WITH_AES_256_CBC_SHA256,
            0x0072 => Self::TLS_DHE_DSS_WITH_3DES_EDE_CBC_RMD,
            0x0073 => Self::TLS_DHE_DSS_WITH_AES_128_CBC_RMD,
            0x0074 => Self::TLS_DHE_DSS_WITH_AES_256_CBC_RMD,
            0x0077 => Self::TLS_DHE_RSA_WITH_3DES_EDE_CBC_RMD,
            0x0078 => Self::TLS_DHE_RSA_WITH_AES_128_CBC_RMD,
            0x0079 => Self::TLS_DHE_RSA_WITH_AES_256_CBC_RMD,
            0x007c => Self::TLS_RSA_WITH_3DES_EDE_CBC_RMD,
            0x007d => Self::TLS_RSA_WITH_AES_128_CBC_RMD,
            0x007e => Self::TLS_RSA_WITH_AES_256_CBC_RMD,
            0x0080 => Self::TLS_GOSTR341094_WITH_28147_CNT_IMIT,
            0x0081 => Self::TLS_GOSTR341001_WITH_28147_CNT_IMIT,
            0x0082 => Self::TLS_GOSTR341094_WITH_NULL_GOSTR3411,
            0x0083 => Self::TLS_GOSTR341001_WITH_NULL_GOSTR3411,
            0x0084 => Self::TLS_RSA_WITH_CAMELLIA_256_CBC_SHA,
            0x0085 => Self::TLS_DH_DSS_WITH_CAMELLIA_256_CBC_SHA,
            0x0086 => Self::TLS_DH_RSA_WITH_CAMELLIA_256_CBC_SHA,
            0x0087 => Self::TLS_DHE_DSS_WITH_CAMELLIA_256_CBC_SHA,
            0x0088 => Self::TLS_DHE_RSA_WITH_CAMELLIA_256_CBC_SHA,
            0x0089 => Self::TLS_DH_anon_WITH_CAMELLIA_256_CBC_SHA,
            0x008a => Self::TLS_PSK_WITH_RC4_128_SHA,
            0x008b => Self::TLS_PSK_WITH_3DES_EDE_CBC_SHA,
            0x008c => Self::TLS_PSK_WITH_AES_128_CBC_SHA,
            0x008d => Self::TLS_PSK_WITH_AES_256_CBC_SHA,
            0x008e => Self::TLS_DHE_PSK_WITH_RC4_128_SHA,
            0x008f => Self::TLS_DHE_PSK_WITH_3DES_EDE_CBC_SHA,
            0x0090 => Self::TLS_DHE_PSK_WITH_AES_128_CBC_SHA,
            0x0091 => Self::TLS_DHE_PSK_WITH_AES_256_CBC_SHA,
            0x0092 => Self::TLS_RSA_PSK_WITH_RC4_128_SHA,
            0x0093 => Self::TLS_RSA_PSK_WITH_3DES_EDE_CBC_SHA,
            0x0094 => Self::TLS_RSA_PSK_WITH_AES_128_CBC_SHA,
            0x0095 => Self::TLS_RSA_PSK_WITH_AES_256_CBC_SHA,
            0x0096 => Self::TLS_RSA_WITH_SEED_CBC_SHA,
            0x0097 => Self::TLS_DH_DSS_WITH_SEED_CBC_SHA,
            0x0098 => Self::TLS_DH_RSA_WITH_SEED_CBC_SHA,
            0x0099 => Self::TLS_DHE_DSS_WITH_SEED_CBC_SHA,
            0x009a => Self::TLS_DHE_RSA_WITH_SEED_CBC_SHA,
            0x009b => Self::TLS_DH_anon_WITH_SEED_CBC_SHA,
            0x009c => Self::TLS_RSA_WITH_AES_128_GCM_SHA256,
            0x009d => Self::TLS_RSA_WITH_AES_256_GCM_SHA384,
            0x009e => Self::TLS_DHE_RSA_WITH_AES_128_GCM_SHA256,
            0x009f => Self::TLS_DHE_RSA_WITH_AES_256_GCM_SHA384,
            0x00a0 => Self::TLS_DH_RSA_WITH_AES_128_GCM_SHA256,
            0x00a1 => Self::TLS_DH_RSA_WITH_AES_256_GCM_SHA384,
            0x00a2 => Self::TLS_DHE_DSS_WITH_AES_128_GCM_SHA256,
            0x00a3 => Self::TLS_DHE_DSS_WITH_AES_256_GCM_SHA384,
            0x00a4 => Self::TLS_DH_DSS_WITH_AES_128_GCM_SHA256,
            0x00a5 => Self::TLS_DH_DSS_WITH_AES_256_GCM_SHA384,
            0x00a6 => Self::TLS_DH_anon_WITH_AES_128_GCM_SHA256,
            0x00a7 => Self::TLS_DH_anon_WITH_AES_256_GCM_SHA384,
            0x00aa => Self::TLS_DHE_PSK_WITH_AES_128_GCM_SHA256,
            0x00ab => Self::TLS_DHE_PSK_WITH_AES_256_GCM_SHA384,
            0x00ac => Self::TLS_RSA_PSK_WITH_AES_128_GCM_SHA256,
            0x00ad => Self::TLS_RSA_PSK_WITH_AES_256_GCM_SHA384,
            0x00ae => Self::TLS_PSK_WITH_AES_128_CBC_SHA256,
            0x00af => Self::TLS_PSK_WITH_AES_256_CBC_SHA384,
            0x00b0 => Self::TLS_PSK_WITH_NULL_SHA256,
            0x00b1 => Self::TLS_PSK_WITH_NULL_SHA384,
            0x00b2 => Self::TLS_DHE_PSK_WITH_AES_128_CBC_SHA256,
            0x00b3 => Self::TLS_DHE_PSK_WITH_AES_256_CBC_SHA384,
            0x00b4 => Self::TLS_DHE_PSK_WITH_NULL_SHA256,
            0x00b5 => Self::TLS_DHE_PSK_WITH_NULL_SHA384,
            0x00b6 => Self::TLS_RSA_PSK_WITH_AES_128_CBC_SHA256,
            0x00b7 => Self::TLS_RSA_PSK_WITH_AES_256_CBC_SHA384,
            0x00b8 => Self::TLS_RSA_PSK_WITH_NULL_SHA256,
            0x00b9 => Self::TLS_RSA_PSK_WITH_NULL_SHA384,
            0x00ba => Self::TLS_RSA_WITH_CAMELLIA_128_CBC_SHA256,
            0x00bb => Self::TLS_DH_DSS_WITH_CAMELLIA_128_CBC_SHA256,
            0x00bc => Self::TLS_DH_RSA_WITH_CAMELLIA_128_CBC_SHA256,
            0x00bd => Self::TLS_DHE_DSS_WITH_CAMELLIA_128_CBC_SHA256,
            0x00be => Self::TLS_DHE_RSA_WITH_CAMELLIA_128_CBC_SHA256,
            0x00bf => Self::TLS_DH_anon_WITH_CAMELLIA_128_CBC_SHA256,
            0x00c0 => Self::TLS_RSA_WITH_CAMELLIA_256_CBC_SHA256,
            0x00c1 => Self::TLS_DH_DSS_WITH_CAMELLIA_256_CBC_SHA256,
            0x00c2 => Self::TLS_DH_RSA_WITH_CAMELLIA_256_CBC_SHA256,
            0x00c3 => Self::TLS_DHE_DSS_WITH_CAMELLIA_256_CBC_SHA256,
            0x00c4 => Self::TLS_DHE_RSA_WITH_CAMELLIA_256_CBC_SHA256,
            0x00c5 => Self::TLS_DH_anon_WITH_CAMELLIA_256_CBC_SHA256,
            0xc001 => Self::TLS_ECDH_ECDSA_WITH_NULL_SHA,
            0xc002 => Self::TLS_ECDH_ECDSA_WITH_RC4_128_SHA,
            0xc003 => Self::TLS_ECDH_ECDSA_WITH_3DES_EDE_CBC_SHA,
            0xc004 => Self::TLS_ECDH_ECDSA_WITH_AES_128_CBC_SHA,
            0xc005 => Self::TLS_ECDH_ECDSA_WITH_AES_256_CBC_SHA,
            0xc006 => Self::TLS_ECDHE_ECDSA_WITH_NULL_SHA,
            0xc007 => Self::TLS_ECDHE_ECDSA_WITH_RC4_128_SHA,
            0xc008 => Self::TLS_ECDHE_ECDSA_WITH_3DES_EDE_CBC_SHA,
            0xc00b => Self::TLS_ECDH_RSA_WITH_NULL_SHA,
            0xc00c => Self::TLS_ECDH_RSA_WITH_RC4_128_SHA,
            0xc00d => Self::TLS_ECDH_RSA_WITH_3DES_EDE_CBC_SHA,
            0xc00e => Self::TLS_ECDH_RSA_WITH_AES_128_CBC_SHA,
            0xc00f => Self::TLS_ECDH_RSA_WITH_AES_256_CBC_SHA,
            0xc010 => Self::TLS_ECDHE_RSA_WITH_NULL_SHA,
            0xc011 => Self::TLS_ECDHE_RSA_WITH_RC4_128_SHA,
            0xc012 => Self::TLS_ECDHE_RSA_WITH_3DES_EDE_CBC_SHA,
            0xc015 => Self::TLS_ECDH_anon_WITH_NULL_SHA,
            0xc016 => Self::TLS_ECDH_anon_WITH_RC4_128_SHA,
            0xc017 => Self::TLS_ECDH_anon_WITH_3DES_EDE_CBC_SHA,
            0xc018 => Self::TLS_ECDH_anon_WITH_AES_128_CBC_SHA,
            0xc019 => Self::TLS_ECDH_anon_WITH_AES_256_CBC_SHA,
            0xc01a => Self::TLS_SRP_SHA_WITH_3DES_EDE_CBC_SHA,
            0xc01b => Self::TLS_SRP_SHA_RSA_WITH_3DES_EDE_CBC_SHA,
            0xc01c => Self::TLS_SRP_SHA_DSS_WITH_3DES_EDE_CBC_SHA,
            0xc01d => Self::TLS_SRP_SHA_WITH_AES_128_CBC_SHA,
            0xc01e => Self::TLS_SRP_SHA_RSA_WITH_AES_128_CBC_SHA,
            0xc01f => Self::TLS_SRP_SHA_DSS_WITH_AES_128_CBC_SHA,
            0xc020 => Self::TLS_SRP_SHA_WITH_AES_256_CBC_SHA,
            0xc021 => Self::TLS_SRP_SHA_RSA_WITH_AES_256_CBC_SHA,
            0xc022 => Self::TLS_SRP_SHA_DSS_WITH_AES_256_CBC_SHA,
            0xc025 => Self::TLS_ECDH_ECDSA_WITH_AES_128_CBC_SHA256,
            0xc026 => Self::TLS_ECDH_ECDSA_WITH_AES_256_CBC_SHA384,
            0xc029 => Self::TLS_ECDH_RSA_WITH_AES_128_CBC_SHA256,
            0xc02a => Self::TLS_ECDH_RSA_WITH_AES_256_CBC_SHA384,
            0xc02d => Self::TLS_ECDH_ECDSA_WITH_AES_128_GCM_SHA256,
            0xc02e => Self::TLS_ECDH_ECDSA_WITH_AES_256_GCM_SHA384,
            0xc031 => Self::TLS_ECDH_RSA_WITH_AES_128_GCM_SHA256,
            0xc032 => Self::TLS_ECDH_RSA_WITH_AES_256_GCM_SHA384,
            0xc033 => Self::TLS_ECDHE_PSK_WITH_RC4_128_SHA,
            0xc034 => Self::TLS_ECDHE_PSK_WITH_3DES_EDE_CBC_SHA,
            0xc035 => Self::TLS_ECDHE_PSK_WITH_AES_128_CBC_SHA,
            0xc036 => Self::TLS_ECDHE_PSK_WITH_AES_256_CBC_SHA,
            0xc037 => Self::TLS_ECDHE_PSK_WITH_AES_128_CBC_SHA256,
            0xc038 => Self::TLS_ECDHE_PSK_WITH_AES_256_CBC_SHA384,
            0xc039 => Self::TLS_ECDHE_PSK_WITH_NULL_SHA,
            0xc03a => Self::TLS_ECDHE_PSK_WITH_NULL_SHA256,
            0xc03b => Self::TLS_ECDHE_PSK_WITH_NULL_SHA384,
            0xc03c => Self::TLS_RSA_WITH_ARIA_128_CBC_SHA256,
            0xc03d => Self::TLS_RSA_WITH_ARIA_256_CBC_SHA384,
            0xc03e => Self::TLS_DH_DSS_WITH_ARIA_128_CBC_SHA256,
            0xc03f => Self::TLS_DH_DSS_WITH_ARIA_256_CBC_SHA384,
            0xc040 => Self::TLS_DH_RSA_WITH_ARIA_128_CBC_SHA256,
            0xc041 => Self::TLS_DH_RSA_WITH_ARIA_256_CBC_SHA384,
            0xc042 => Self::TLS_DHE_DSS_WITH_ARIA_128_CBC_SHA256,
            0xc043 => Self::TLS_DHE_DSS_WITH_ARIA_256_CBC_SHA384,
            0xc044 => Self::TLS_DHE_RSA_WITH_ARIA_128_CBC_SHA256,
            0xc045 => Self::TLS_DHE_RSA_WITH_ARIA_256_CBC_SHA384,
            0xc046 => Self::TLS_DH_anon_WITH_ARIA_128_CBC_SHA256,
            0xc047 => Self::TLS_DH_anon_WITH_ARIA_256_CBC_SHA384,
            0xc048 => Self::TLS_ECDHE_ECDSA_WITH_ARIA_128_CBC_SHA256,
            0xc049 => Self::TLS_ECDHE_ECDSA_WITH_ARIA_256_CBC_SHA384,
            0xc04a => Self::TLS_ECDH_ECDSA_WITH_ARIA_128_CBC_SHA256,
            0xc04b => Self::TLS_ECDH_ECDSA_WITH_ARIA_256_CBC_SHA384,
            0xc04c => Self::TLS_ECDHE_RSA_WITH_ARIA_128_CBC_SHA256,
            0xc04d => Self::TLS_ECDHE_RSA_WITH_ARIA_256_CBC_SHA384,
            0xc04e => Self::TLS_ECDH_RSA_WITH_ARIA_128_CBC_SHA256,
            0xc04f => Self::TLS_ECDH_RSA_WITH_ARIA_256_CBC_SHA384,
            0xc050 => Self::TLS_RSA_WITH_ARIA_128_GCM_SHA256,
            0xc051 => Self::TLS_RSA_WITH_ARIA_256_GCM_SHA384,
            0xc052 => Self::TLS_DHE_RSA_WITH_ARIA_128_GCM_SHA256,
            0xc053 => Self::TLS_DHE_RSA_WITH_ARIA_256_GCM_SHA384,
            0xc054 => Self::TLS_DH_RSA_WITH_ARIA_128_GCM_SHA256,
            0xc055 => Self::TLS_DH_RSA_WITH_ARIA_256_GCM_SHA384,
            0xc056 => Self::TLS_DHE_DSS_WITH_ARIA_128_GCM_SHA256,
            0xc057 => Self::TLS_DHE_DSS_WITH_ARIA_256_GCM_SHA384,
            0xc058 => Self::TLS_DH_DSS_WITH_ARIA_128_GCM_SHA256,
            0xc059 => Self::TLS_DH_DSS_WITH_ARIA_256_GCM_SHA384,
            0xc05a => Self::TLS_DH_anon_WITH_ARIA_128_GCM_SHA256,
            0xc05b => Self::TLS_DH_anon_WITH_ARIA_256_GCM_SHA384,
            0xc05c => Self::TLS_ECDHE_ECDSA_WITH_ARIA_128_GCM_SHA256,
            0xc05d => Self::TLS_ECDHE_ECDSA_WITH_ARIA_256_GCM_SHA384,
            0xc05e => Self::TLS_ECDH_ECDSA_WITH_ARIA_128_GCM_SHA256,
            0xc05f => Self::TLS_ECDH_ECDSA_WITH_ARIA_256_GCM_SHA384,
            0xc060 => Self::TLS_ECDHE_RSA_WITH_ARIA_128_GCM_SHA256,
            0xc061 => Self::TLS_ECDHE_RSA_WITH_ARIA_256_GCM_SHA384,
            0xc062 => Self::TLS_ECDH_RSA_WITH_ARIA_128_GCM_SHA256,
            0xc063 => Self::TLS_ECDH_RSA_WITH_ARIA_256_GCM_SHA384,
            0xc064 => Self::TLS_PSK_WITH_ARIA_128_CBC_SHA256,
            0xc065 => Self::TLS_PSK_WITH_ARIA_256_CBC_SHA384,
            0xc066 => Self::TLS_DHE_PSK_WITH_ARIA_128_CBC_SHA256,
            0xc067 => Self::TLS_DHE_PSK_WITH_ARIA_256_CBC_SHA384,
            0xc068 => Self::TLS_RSA_PSK_WITH_ARIA_128_CBC_SHA256,
            0xc069 => Self::TLS_RSA_PSK_WITH_ARIA_256_CBC_SHA384,
            0xc06a => Self::TLS_PSK_WITH_ARIA_128_GCM_SHA256,
            0xc06b => Self::TLS_PSK_WITH_ARIA_256_GCM_SHA384,
            0xc06c => Self::TLS_DHE_PSK_WITH_ARIA_128_GCM_SHA256,
            0xc06d => Self::TLS_DHE_PSK_WITH_ARIA_256_GCM_SHA384,
            0xc06e => Self::TLS_RSA_PSK_WITH_ARIA_128_GCM_SHA256,
            0xc06f => Self::TLS_RSA_PSK_WITH_ARIA_256_GCM_SHA384,
            0xc070 => Self::TLS_ECDHE_PSK_WITH_ARIA_128_CBC_SHA256,
            0xc071 => Self::TLS_ECDHE_PSK_WITH_ARIA_256_CBC_SHA384,
            0xc072 => Self::TLS_ECDHE_ECDSA_WITH_CAMELLIA_128_CBC_SHA256,
            0xc073 => Self::TLS_ECDHE_ECDSA_WITH_CAMELLIA_256_CBC_SHA384,
            0xc074 => Self::TLS_ECDH_ECDSA_WITH_CAMELLIA_128_CBC_SHA256,
            0xc075 => Self::TLS_ECDH_ECDSA_WITH_CAMELLIA_256_CBC_SHA384,
            0xc076 => Self::TLS_ECDHE_RSA_WITH_CAMELLIA_128_CBC_SHA256,
            0xc077 => Self::TLS_ECDHE_RSA_WITH_CAMELLIA_256_CBC_SHA384,
            0xc078 => Self::TLS_ECDH_RSA_WITH_CAMELLIA_128_CBC_SHA256,
            0xc079 => Self::TLS_ECDH_RSA_WITH_CAMELLIA_256_CBC_SHA384,
            0xc07a => Self::TLS_RSA_WITH_CAMELLIA_128_GCM_SHA256,
            0xc07b => Self::TLS_RSA_WITH_CAMELLIA_256_GCM_SHA384,
            0xc07c => Self::TLS_DHE_RSA_WITH_CAMELLIA_128_GCM_SHA256,
            0xc07d => Self::TLS_DHE_RSA_WITH_CAMELLIA_256_GCM_SHA384,
            0xc07e => Self::TLS_DH_RSA_WITH_CAMELLIA_128_GCM_SHA256,
            0xc07f => Self::TLS_DH_RSA_WITH_CAMELLIA_256_GCM_SHA384,
            0xc080 => Self::TLS_DHE_DSS_WITH_CAMELLIA_128_GCM_SHA256,
            0xc081 => Self::TLS_DHE_DSS_WITH_CAMELLIA_256_GCM_SHA384,
            0xc082 => Self::TLS_DH_DSS_WITH_CAMELLIA_128_GCM_SHA256,
            0xc083 => Self::TLS_DH_DSS_WITH_CAMELLIA_256_GCM_SHA384,
            0xc084 => Self::TLS_DH_anon_WITH_CAMELLIA_128_GCM_SHA256,
            0xc085 => Self::TLS_DH_anon_WITH_CAMELLIA_256_GCM_SHA384,
            0xc086 => Self::TLS_ECDHE_ECDSA_WITH_CAMELLIA_128_GCM_SHA256,
            0xc087 => Self::TLS_ECDHE_ECDSA_WITH_CAMELLIA_256_GCM_SHA384,
            0xc088 => Self::TLS_ECDH_ECDSA_WITH_CAMELLIA_128_GCM_SHA256,
            0xc089 => Self::TLS_ECDH_ECDSA_WITH_CAMELLIA_256_GCM_SHA384,
            0xc08a => Self::TLS_ECDHE_RSA_WITH_CAMELLIA_128_GCM_SHA256,
            0xc08b => Self::TLS_ECDHE_RSA_WITH_CAMELLIA_256_GCM_SHA384,
            0xc08c => Self::TLS_ECDH_RSA_WITH_CAMELLIA_128_GCM_SHA256,
            0xc08d => Self::TLS_ECDH_RSA_WITH_CAMELLIA_256_GCM_SHA384,
            0xc08e => Self::TLS_PSK_WITH_CAMELLIA_128_GCM_SHA256,
            0xc08f => Self::TLS_PSK_WITH_CAMELLIA_256_GCM_SHA384,
            0xc090 => Self::TLS_DHE_PSK_WITH_CAMELLIA_128_GCM_SHA256,
            0xc091 => Self::TLS_DHE_PSK_WITH_CAMELLIA_256_GCM_SHA384,
            0xc092 => Self::TLS_RSA_PSK_WITH_CAMELLIA_128_GCM_SHA256,
            0xc093 => Self::TLS_RSA_PSK_WITH_CAMELLIA_256_GCM_SHA384,
            0xc094 => Self::TLS_PSK_WITH_CAMELLIA_128_CBC_SHA256,
            0xc095 => Self::TLS_PSK_WITH_CAMELLIA_256_CBC_SHA384,
            0xc096 => Self::TLS_DHE_PSK_WITH_CAMELLIA_128_CBC_SHA256,
            0xc097 => Self::TLS_DHE_PSK_WITH_CAMELLIA_256_CBC_SHA384,
            0xc098 => Self::TLS_RSA_PSK_WITH_CAMELLIA_128_CBC_SHA256,
            0xc099 => Self::TLS_RSA_PSK_WITH_CAMELLIA_256_CBC_SHA384,
            0xc09a => Self::TLS_ECDHE_PSK_WITH_CAMELLIA_128_CBC_SHA256,
            0xc09b => Self::TLS_ECDHE_PSK_WITH_CAMELLIA_256_CBC_SHA384,
            0xc09c => Self::TLS_RSA_WITH_AES_128_CCM,
            0xc09d => Self::TLS_RSA_WITH_AES_256_CCM,
            0xc09e => Self::TLS_DHE_RSA_WITH_AES_128_CCM,
            0xc09f => Self::TLS_DHE_RSA_WITH_AES_256_CCM,
            0xc0a0 => Self::TLS_RSA_WITH_AES_128_CCM_8,
            0xc0a1 => Self::TLS_RSA_WITH_AES_256_CCM_8,
            0xc0a2 => Self::TLS_DHE_RSA_WITH_AES_128_CCM_8,
            0xc0a3 => Self::TLS_DHE_RSA_WITH_AES_256_CCM_8,
            0xc0a4 => Self::TLS_PSK_WITH_AES_128_CCM,
            0xc0a5 => Self::TLS_PSK_WITH_AES_256_CCM,
            0xc0a6 => Self::TLS_DHE_PSK_WITH_AES_128_CCM,
            0xc0a7 => Self::TLS_DHE_PSK_WITH_AES_256_CCM,
            0xc0a8 => Self::TLS_PSK_WITH_AES_128_CCM_8,
            0xc0a9 => Self::TLS_PSK_WITH_AES_256_CCM_8,
            0xc0aa => Self::TLS_PSK_DHE_WITH_AES_128_CCM_8,
            0xc0ab => Self::TLS_PSK_DHE_WITH_AES_256_CCM_8,
            0xc0ac => Self::TLS_ECDHE_ECDSA_WITH_AES_128_CCM,
            0xc0ad => Self::TLS_ECDHE_ECDSA_WITH_AES_256_CCM,
            0xc0ae => Self::TLS_ECDHE_ECDSA_WITH_AES_128_CCM_8,
            0xc0af => Self::TLS_ECDHE_ECDSA_WITH_AES_256_CCM_8,
            0xccaa => Self::TLS_DHE_RSA_WITH_CHACHA20_POLY1305_SHA256,
            0xccab => Self::TLS_PSK_WITH_CHACHA20_POLY1305_SHA256,
            0xccac => Self::TLS_ECDHE_PSK_WITH_CHACHA20_POLY1305_SHA256,
            0xccad => Self::TLS_DHE_PSK_WITH_CHACHA20_POLY1305_SHA256,
            0xccae => Self::TLS_RSA_PSK_WITH_CHACHA20_POLY1305_SHA256,
            0xfefe => Self::SSL_RSA_FIPS_WITH_DES_CBC_SHA,
            0xfeff => Self::SSL_RSA_FIPS_WITH_3DES_EDE_CBC_SHA,
            _ => Self::Unknown(code),
        }
    }

    open spec fn spec_as_str(self) -> Option<&'static str> {
        match Self::spec_from_code(self.spec_code()) {
            Self::TLS_NULL_WITH_NULL_NULL => Some("TLS_NULL_WITH_NULL_NULL"),
            Self::TLS_PSK_WITH_AES_128_GCM_SHA256 => Some("TLS_PSK_WITH_AES_128_GCM_SHA256"),
            Self::TLS_PSK_WITH_AES_256_GCM_SHA384 => Some("TLS_PSK_WITH_AES_256_GCM_SHA384"),
            Self::TLS_EMPTY_RENEGOTIATION_INFO_SCSV => Some("TLS_EMPTY_RENEGOTIATION_INFO_SCSV"),
            Self::TLS13_AES_128_GCM_SHA256 => Some("TLS13_AES_128_GCM_SHA256"),
            Self::TLS13_AES_256_GCM_SHA384 => Some("TLS13_AES_256_GCM_SHA384"),
            Self::TLS13_CHACHA20_POLY1305_SHA256 => Some("TLS13_CHACHA20_POLY1305_SHA256"),
            Self::TLS13_AES_128_CCM_SHA256 => Some("TLS13_AES_128_CCM_SHA256"),
            Self::TLS13_AES_128_CCM_8_SHA256 => Some("TLS13_AES_128_CCM_8_SHA256"),
            Self::TLS_ECDHE_ECDSA_WITH_AES_128_CBC_SHA => Some("TLS_ECDHE_ECDSA_WITH_AES_128_CBC_SHA"),
            Self::TLS_ECDHE_ECDSA_WITH_AES_256_CBC_SHA => Some("TLS_ECDHE_ECDSA_WITH_AES_256_CBC_SHA"),
            Self::TLS_ECDHE_RSA_WITH_AES_128_CBC_SHA => Some("TLS_ECDHE_RSA_WITH_AES_128_CBC_SHA"),
            Self::TLS_ECDHE_RSA_WITH_AES_256_CBC_SHA => Some("TLS_ECDHE_RSA_WITH_AES_256_CBC_SHA"),
            Self::TLS_ECDHE_ECDSA_WITH_AES_128_CBC_SHA256 => Some("TLS_ECDHE_ECDSA_WITH_AES_128_CBC_SHA256"),
            Self::TLS_ECDHE_ECDSA_WITH_AES_256_CBC_SHA384 => Some("TLS_ECDHE_ECDSA_WITH_AES_256_CBC_SHA384"),
            Self::TLS_ECDHE_RSA_WITH_AES_128_CBC_SHA256 => Some("TLS_ECDHE_RSA_WITH_AES_128_CBC_SHA256"),
            Self::TLS_ECDHE_RSA_WITH_AES_256_CBC_SHA384 => Some("TLS_ECDHE_RSA_WITH_AES_256_CBC_SHA384"),
            Self::TLS_ECDHE_ECDSA_WITH_AES_128_GCM_SHA256 => Some("TLS_ECDHE_ECDSA_WITH_AES_128_GCM_SHA256"),
            Self::TLS_ECDHE_ECDSA_WITH_AES_256_GCM_SHA384 => Some("TLS_ECDHE_ECDSA_WITH_AES_256_GCM_SHA384"),
            Self::TLS_ECDHE_RSA_WITH_AES_128_GCM_SHA256 => Some("TLS_ECDHE_RSA_WITH_AES_128_GCM_SHA256"),
            Self::TLS_ECDHE_RSA_WITH_AES_256_GCM_SHA384 => Some("TLS_ECDHE_RSA_WITH_AES_256_GCM_SHA384"),
            Self::TLS_ECDHE_RSA_WITH_CHACHA20_POLY1305_SHA256 => Some("TLS_ECDHE_RSA_WITH_CHACHA20_POLY1305_SHA256"),
            Self::TLS_ECDHE_ECDSA_WITH_CHACHA20_POLY1305_SHA256 => Some("TLS_ECDHE_ECDSA_WITH_CHACHA20_POLY1305_SHA256"),
            Self::TLS_RSA_WITH_NULL_MD5 => Some("TLS_RSA_WITH_NULL_MD5"),
            Self::TLS_RSA_WITH_NULL_SHA => Some("TLS_RSA_WITH_NULL_SHA"),
            Self::TLS_RSA_EXPORT_WITH_RC4_40_MD5 => Some("TLS_RSA_EXPORT_WITH_RC4_40_MD5"),
            Self::TLS_RSA_WITH_RC4_128_MD5 => Some("TLS_RSA_WITH_RC4_128_MD5"),
            Self::TLS_RSA_WITH_RC4_128_SHA => Some("TLS_RSA_WITH_RC4_128_SHA"),
            Self::TLS_RSA_EXPORT_WITH_RC2_CBC_40_MD5 => Some("TLS_RSA_EXPORT_WITH_RC2_CBC_40_MD5"),
            Self::TLS_RSA_WITH_IDEA_CBC_SHA => Some("TLS_RSA_WITH_IDEA_CBC_SHA"),
            Self::TLS_RSA_EXPORT_WITH_DES40_CBC_SHA => Some("TLS_RSA_EXPORT_WITH_DES40_CBC_SHA"),
            Self::TLS_RSA_WITH_DES_CBC_SHA => Some("TLS_RSA_WITH_DES_CBC_SHA"),
            Self::TLS_RSA_WITH_3DES_EDE_CBC_SHA => Some("TLS_RSA_WITH_3DES_EDE_CBC_SHA"),
            Self::TLS_DH_DSS_EXPORT_WITH_DES40_CBC_SHA => Some("TLS_DH_DSS_EXPORT_WITH_DES40_CBC_SHA"),
            Self::TLS_DH_DSS_WITH_DES_CBC_SHA => Some("TLS_DH_DSS_WITH_DES_CBC_SHA"),
            Self::TLS_DH_DSS_WITH_3DES_EDE_CBC_SHA => Some("TLS_DH_DSS_WITH_3DES_EDE_CBC_SHA"),
            Self::TLS_DH_RSA_EXPORT_WITH_DES40_CBC_SHA => Some("TLS_DH_RSA_EXPORT_WITH_DES40_CBC_SHA"),
            Self::TLS_DH_RSA_WITH_DES_CBC_SHA => Some("TLS_DH_RSA_WITH_DES_CBC_SHA"),
            Self::TLS_DH_RSA_WITH_3DES_EDE_CBC_SHA => Some("TLS_DH_RSA_WITH_3DES_EDE_CBC_SHA"),
            Self::TLS_DHE_DSS_EXPORT_WITH_DES40_CBC_SHA => Some("TLS_DHE_DSS_EXPORT_WITH_DES40_CBC_SHA"),
            Self::TLS_DHE_DSS_WITH_DES_CBC_SHA => Some("TLS_DHE_DSS_WITH_DES_CBC_SHA"),
            Self::TLS_DHE_DSS_WITH_3DES_EDE_CBC_SHA => Some("TLS_DHE_DSS_WITH_3DES_EDE_CBC_SHA"),
            Self::TLS_DHE_RSA_EXPORT_WITH_DES40_CBC_SHA => Some("TLS_DHE_RSA_EXPORT_WITH_DES40_CBC_SHA"),
            Self::TLS_DHE_RSA_WITH_DES_CBC_SHA => Some("TLS_DHE_RSA_WITH_DES_CBC_SHA"),
            Self::TLS_DHE_RSA_WITH_3DES_EDE_CBC_SHA => Some("TLS_DHE_RSA_WITH_3DES_EDE_CBC_SHA"),
            Self::TLS_DH_anon_EXPORT_WITH_RC4_40_MD5 => Some("TLS_DH_anon_EXPORT_WITH_RC4_40_MD5"),
            Self::TLS_DH_anon_WITH_RC4_128_MD5 => Some("TLS_DH_anon_WITH_RC4_128_MD5"),
            Self::TLS_DH_anon_EXPORT_WITH_DES40_CBC_SHA => Some("TLS_DH_anon_EXPORT_WITH_DES40_CBC_SHA"),
            Self::TLS_DH_anon_WITH_DES_CBC_SHA => Some("TLS_DH_anon_WITH_DES_CBC_SHA"),
            Self::TLS_DH_anon_WITH_3DES_EDE_CBC_SHA => Some("TLS_DH_anon_WITH_3DES_EDE_CBC_SHA"),
            Self::SSL_FORTEZZA_KEA_WITH_NULL_SHA => Some("SSL_FORTEZZA_KEA_WITH_NULL_SHA"),
            Self::SSL_FORTEZZA_KEA_WITH_FORTEZZA_CBC_SHA => Some("SSL_FORTEZZA_KEA_WITH_FORTEZZA_CBC_SHA"),
            Self::TLS_KRB5_WITH_DES_CBC_SHA_or_SSL_FORTEZZA_KEA_WITH_RC4_128_SHA => Some("TLS_KRB5_WITH_DES_CBC_SHA_or_SSL_FORTEZZA_KEA_WITH_RC4_128_SHA"),
            Self::TLS_KRB5_WITH_3DES_EDE_CBC_SHA => Some("TLS_KRB5_WITH_3DES_EDE_CBC_SHA"),
            Self::TLS_KRB5_WITH_RC4_128_SHA => Some("TLS_KRB5_WITH_RC4_128_SHA"),
            Self::TLS_KRB5_WITH_IDEA_CBC_SHA => Some("TLS_KRB5_WITH_IDEA_CBC_SHA"),
            Self::TLS_KRB5_WITH_DES_CBC_MD5 => Some("TLS_KRB5_WITH_DES_CBC_MD5"),
            Self::TLS_KRB5_WITH_3DES_EDE_CBC_MD5 => Some("TLS_KRB5_WITH_3DES_EDE_CBC_MD5"),
            Self::TLS_KRB5_WITH_RC4_128_MD5 => Some("TLS_KRB5_WITH_RC4_128_MD5"),
            Self::TLS_KRB5_WITH_IDEA_CBC_MD5 => Some("TLS_KRB5_WITH_IDEA_CBC_MD5"),
            Self::TLS_KRB5_EXPORT_WITH_DES_CBC_40_SHA => Some("TLS_KRB5_EXPORT_WITH_DES_CBC_40_SHA"),
            Self::TLS_KRB5_EXPORT_WITH_RC2_CBC_40_SHA => Some("TLS_KRB5_EXPORT_WITH_RC2_CBC_40_SHA"),
            Self::TLS_KRB5_EXPORT_WITH_RC4_40_SHA => Some("TLS_KRB5_EXPORT_WITH_RC4_40_SHA"),
            Self::TLS_KRB5_EXPORT_WITH_DES_CBC_40_MD5 => Some("TLS_KRB5_EXPORT_WITH_DES_CBC_40_MD5"),
            Self::TLS_KRB5_EXPORT_WITH_RC2_CBC_40_MD5 => Some("TLS_KRB5_EXPORT_WITH_RC2_CBC_40_MD5"),
            Self::TLS_KRB5_EXPORT_WITH_RC4_40_MD5 => Some("TLS_KRB5_EXPORT_WITH_RC4_40_MD5"),
            Self::TLS_PSK_WITH_NULL_SHA => Some("TLS_PSK_WITH_NULL_SHA"),
            Self::TLS_DHE_PSK_WITH_NULL_SHA => Some("TLS_DHE_PSK_WITH_NULL_SHA"),
            Self::TLS_RSA_PSK_WITH_NULL_SHA => Some("TLS_RSA_PSK_WITH_NULL_SHA"),
            Self::TLS_RSA_WITH_AES_128_CBC_SHA => Some("TLS_RSA_WITH_AES_128_CBC_SHA"),
            Self::TLS_DH_DSS_WITH_AES_128_CBC_SHA => Some("TLS_DH_DSS_WITH_AES_128_CBC_SHA"),
            Self::TLS_DH_RSA_WITH_AES_128_CBC_SHA => Some("TLS_DH_RSA_WITH_AES_128_CBC_SHA"),
            Self::TLS_DHE_DSS_WITH_AES_128_CBC_SHA => Some("TLS_DHE_DSS_WITH_AES_128_CBC_SHA"),
            Self::TLS_DHE_RSA_WITH_AES_128_CBC_SHA => Some("TLS_DHE_RSA_WITH_AES_128_CBC_SHA"),
            Self::TLS_DH_anon_WITH_AES_128_CBC_SHA => Some("TLS_DH_anon_WITH_AES_128_CBC_SHA"),
            Self::TLS_RSA_WITH_AES_256_CBC_SHA => Some("TLS_RSA_WITH_AES_256_CBC_SHA"),
            Self::TLS_DH_DSS_WITH_AES_256_CBC_SHA => Some("TLS_DH_DSS_WITH_AES_256_CBC_SHA"),
            Self::TLS_DH_RSA_WITH_AES_256_CBC_SHA => Some("TLS_DH_RSA_WITH_AES_256_CBC_SHA"),
            Self::TLS_DHE_DSS_WITH_AES_256_CBC_SHA => Some("TLS_DHE_DSS_WITH_AES_256_CBC_SHA"),
            Self::TLS_DHE_RSA_WITH_AES_256_CBC_SHA => Some("TLS_DHE_RSA_WITH_AES_256_CBC_SHA"),
            Self::TLS_DH_anon_WITH_AES_256_CBC_SHA => Some("TLS_DH_anon_WITH_AES_256_CBC_SHA"),
            Self::TLS_RSA_WITH_NULL_SHA256 => Some("TLS_RSA_WITH_NULL_SHA256"),
            Self::TLS_RSA_WITH_AES_128_CBC_SHA256 => Some("TLS_RSA_WITH_AES_128_CBC_SHA256"),
            Self::TLS_RSA_WITH_AES_256_CBC_SHA256 => Some("TLS_RSA_WITH_AES_256_CBC_SHA256"),
            Self::TLS_DH_DSS_WITH_AES_128_CBC_SHA256 => Some("TLS_DH_DSS_WITH_AES_128_CBC_SHA256"),
            Self::TLS_DH_RSA_WITH_AES_128_CBC_SHA256 => Some("TLS_DH_RSA_WITH_AES_128_CBC_SHA256"),
            Self::TLS_DHE_DSS_WITH_AES_128_CBC_SHA256 => Some("TLS_DHE_DSS_WITH_AES_128_CBC_SHA256"),
            Self::TLS_RSA_WITH_CAMELLIA_128_CBC_SHA => Some("TLS_RSA_WITH_CAMELLIA_128_CBC_SHA"),
            Self::TLS_DH_DSS_WITH_CAMELLIA_128_CBC_SHA => Some("TLS_DH_DSS_WITH_CAMELLIA_128_CBC_SHA"),
            Self::TLS_DH_RSA_WITH_CAMELLIA_128_CBC_SHA => Some("TLS_DH_RSA_WITH_CAMELLIA_128_CBC_SHA"),
            Self::TLS_DHE_DSS_WITH_CAMELLIA_128_CBC_SHA => Some("TLS_DHE_DSS_WITH_CAMELLIA_128_CBC_SHA"),
            Self::TLS_DHE_RSA_WITH_CAMELLIA_128_CBC_SHA => Some("TLS_DHE_RSA_WITH_CAMELLIA_128_CBC_SHA"),
            Self::TLS_DH_anon_WITH_CAMELLIA_128_CBC_SHA => Some("TLS_DH_anon_WITH_CAMELLIA_128_CBC_SHA"),
            Self::TLS_ECDH_ECDSA_WITH_NULL_SHA_draft => Some("TLS_ECDH_ECDSA_WITH_NULL_SHA_draft"),
            Self::TLS_ECDH_ECDSA_WITH_RC4_128_SHA_draft => Some("TLS_ECDH_ECDSA_WITH_RC4_128_SHA_draft"),
            Self::TLS_ECDH_ECDSA_WITH_DES_CBC_SHA_draft => Some("TLS_ECDH_ECDSA_WITH_DES_CBC_SHA_draft"),
            Self::TLS_ECDH_ECDSA_WITH_3DES_EDE_CBC_SHA_draft => Some("TLS_ECDH_ECDSA_WITH_3DES_EDE_CBC_SHA_draft"),
            Self::TLS_ECDH_ECDSA_WITH_AES_128_CBC_SHA_draft => Some("TLS_ECDH_ECDSA_WITH_AES_128_CBC_SHA_draft"),
            Self::TLS_ECDH_ECDSA_WITH_AES_256_CBC_SHA_draft => Some("TLS_ECDH_ECDSA_WITH_AES_256_CBC_SHA_draft"),
            Self::TLS_ECDH_ECNRA_WITH_DES_CBC_SHA_draft => Some("TLS_ECDH_ECNRA_WITH_DES_CBC_SHA_draft"),
            Self::TLS_ECDH_ECNRA_WITH_3DES_EDE_CBC_SHA_draft => Some("TLS_ECDH_ECNRA_WITH_3DES_EDE_CBC_SHA_draft"),
            Self::TLS_ECMQV_ECDSA_NULL_SHA_draft => Some("TLS_ECMQV_ECDSA_NULL_SHA_draft"),
            Self::TLS_ECMQV_ECDSA_WITH_RC4_128_SHA_draft => Some("TLS_ECMQV_ECDSA_WITH_RC4_128_SHA_draft"),
            Self::TLS_ECMQV_ECDSA_WITH_DES_CBC_SHA_draft => Some("TLS_ECMQV_ECDSA_WITH_DES_CBC_SHA_draft"),
            Self::TLS_ECMQV_ECDSA_WITH_3DES_EDE_CBC_SHA_draft => Some("TLS_ECMQV_ECDSA_WITH_3DES_EDE_CBC_SHA_draft"),
            Self::TLS_ECMQV_ECNRA_NULL_SHA_draft => Some("TLS_ECMQV_ECNRA_NULL_SHA_draft"),
            Self::TLS_ECMQV_ECNRA_WITH_RC4_128_SHA_draft => Some("TLS_ECMQV_ECNRA_WITH_RC4_128_SHA_draft"),
            Self::TLS_ECMQV_ECNRA_WITH_DES_CBC_SHA_draft => Some("TLS_ECMQV_ECNRA_WITH_DES_CBC_SHA_draft"),
            Self::TLS_ECMQV_ECNRA_WITH_3DES_EDE_CBC_SHA_draft => Some("TLS_ECMQV_ECNRA_WITH_3DES_EDE_CBC_SHA_draft"),
            Self::TLS_ECDH_anon_NULL_WITH_SHA_draft => Some("TLS_ECDH_anon_NULL_WITH_SHA_draft"),
            Self::TLS_ECDH_anon_WITH_RC4_128_SHA_draft => Some("TLS_ECDH_anon_WITH_RC4_128_SHA_draft"),
            Self::TLS_ECDH_anon_WITH_DES_CBC_SHA_draft => Some("TLS_ECDH_anon_WITH_DES_CBC_SHA_draft"),
            Self::TLS_ECDH_anon_WITH_3DES_EDE_CBC_SHA_draft => Some("TLS_ECDH_anon_WITH_3DES_EDE_CBC_SHA_draft"),
            Self::TLS_ECDH_anon_EXPORT_WITH_DES40_CBC_SHA_draft => Some("TLS_ECDH_anon_EXPORT_WITH_DES40_CBC_SHA_draft"),
            Self::TLS_ECDH_anon_EXPORT_WITH_RC4_40_SHA_draft => Some("TLS_ECDH_anon_EXPORT_WITH_RC4_40_SHA_draft"),
            Self::TLS_RSA_EXPORT1024_WITH_RC4_56_MD5 => Some("TLS_RSA_EXPORT1024_WITH_RC4_56_MD5"),
            Self::TLS_RSA_EXPORT1024_WITH_RC2_CBC_56_MD5 => Some("TLS_RSA_EXPORT1024_WITH_RC2_CBC_56_MD5"),
            Self::TLS_RSA_EXPORT1024_WITH_DES_CBC_SHA => Some("TLS_RSA_EXPORT1024_WITH_DES_CBC_SHA"),
            Self::TLS_DHE_DSS_EXPORT1024_WITH_DES_CBC_SHA => Some("TLS_DHE_DSS_EXPORT1024_WITH_DES_CBC_SHA"),
            Self::TLS_RSA_EXPORT1024_WITH_RC4_56_SHA => Some("TLS_RSA_EXPORT1024_WITH_RC4_56_SHA"),
            Self::TLS_DHE_DSS_EXPORT1024_WITH_RC4_56_SHA => Some("TLS_DHE_DSS_EXPORT1024_WITH_RC4_56_SHA"),
            Self::TLS_DHE_DSS_WITH_RC4_128_SHA => Some("TLS_DHE_DSS_WITH_RC4_128_SHA"),
            Self::TLS_DHE_RSA_WITH_AES_128_CBC_SHA256 => Some("TLS_DHE_RSA_WITH_AES_128_CBC_SHA256"),
            Self::TLS_DH_DSS_WITH_AES_256_CBC_SHA256 => Some("TLS_DH_DSS_WITH_AES_256_CBC_SHA256"),
            Self::TLS_DH_RSA_WITH_AES_256_CBC_SHA256 => Some("TLS_DH_RSA_WITH_AES_256_CBC_SHA256"),
            Self::TLS_DHE_DSS_WITH_AES_256_CBC_SHA256 => Some("TLS_DHE_DSS_WITH_AES_256_CBC_SHA256"),
            Self::TLS_DHE_RSA_WITH_AES_256_CBC_SHA256 => Some("TLS_DHE_RSA_WITH_AES_256_CBC_SHA256"),
            Self::TLS_DH_anon_WITH_AES_128_CBC_SHA256 => Some("TLS_DH_anon_WITH_AES_128_CBC_SHA256"),
            Self::TLS_DH_anon_WITH_AES_256_CBC_SHA256 => Some("TLS_DH_anon_WITH_AES_256_CBC_SHA256"),
            Self::TLS_DHE_DSS_WITH_3DES_EDE_CBC_RMD => Some("TLS_DHE_DSS_WITH_3DES_EDE_CBC_RMD"),
            Self::TLS_DHE_DSS_WITH_AES_128_CBC_RMD => Some("TLS_DHE_DSS_WITH_AES_128_CBC_RMD"),
            Self::TLS_DHE_DSS_WITH_AES_256_CBC_RMD => Some("TLS_DHE_DSS_WITH_AES_256_CBC_RMD"),
            Self::TLS_DHE_RSA_WITH_3DES_EDE_CBC_RMD => Some("TLS_DHE_RSA_WITH_3DES_EDE_CBC_RMD"),
            Self::TLS_DHE_RSA_WITH_AES_128_CBC_RMD => Some("TLS_DHE_RSA_WITH_AES_128_CBC_RMD"),
            Self::TLS_DHE_RSA_WITH_AES_256_CBC_RMD => Some("TLS_DHE_RSA_WITH_AES_256_CBC_RMD"),
            Self::TLS_RSA_WITH_3DES_EDE_CBC_RMD => Some("TLS_RSA_WITH_3DES_EDE_CBC_RMD"),
            Self::TLS_RSA_WITH_AES_128_CBC_RMD => Some("TLS_RSA_WITH_AES_128_CBC_RMD"),
            Self::TLS_RSA_WITH_AES_256_CBC_RMD => Some("TLS_RSA_WITH_AES_256_CBC_RMD"),
            Self::TLS_GOSTR341094_WITH_28147_CNT_IMIT => Some("TLS_GOSTR341094_WITH_28147_CNT_IMIT"),
            Self::TLS_GOSTR341001_WITH_28147_CNT_IMIT => Some("TLS_GOSTR341001_WITH_28147_CNT_IMIT"),
            Self::TLS_GOSTR341094_WITH_NULL_GOSTR3411 => Some("TLS_GOSTR341094_WITH_NULL_GOSTR3411"),
            Self::TLS_GOSTR341001_WITH_NULL_GOSTR3411 => Some("TLS_GOSTR341001_WITH_NULL_GOSTR3411"),
            Self::TLS_RSA_WITH_CAMELLIA_256_CBC_SHA => Some("TLS_RSA_WITH_CAMELLIA_256_CBC_SHA"),
            Self::TLS_DH_DSS_WITH_CAMELLIA_256_CBC_SHA => Some("TLS_DH_DSS_WITH_CAMELLIA_256_CBC_SHA"),
            Self::TLS_DH_RSA_WITH_CAMELLIA_256_CBC_SHA => Some("TLS_DH_RSA_WITH_CAMELLIA_256_CBC_SHA"),
            Self::TLS_DHE_DSS_WITH_CAMELLIA_256_CBC_SHA => Some("TLS_DHE_DSS_WITH_CAMELLIA_256_CBC_SHA"),
            Self::TLS_DHE_RSA_WITH_CAMELLIA_256_CBC_SHA => Some("TLS_DHE_RSA_WITH_CAMELLIA_256_CBC_SHA"),
            Self::TLS_DH_anon_WITH_CAMELLIA_256_CBC_SHA => Some("TLS_DH_anon_WITH_CAMELLIA_256_CBC_SHA"),
            Self::TLS_PSK_WITH_RC4_128_SHA => Some("TLS_PSK_WITH_RC4_128_SHA"),
            Self::TLS_PSK_WITH_3DES_EDE_CBC_SHA => Some("TLS_PSK_WITH_3DES_EDE_CBC_SHA"),
            Self::TLS_PSK_WITH_AES_128_CBC_SHA => Some("TLS_PSK_WITH_AES_128_CBC_SHA"),
            Self::TLS_PSK_WITH_AES_256_CBC_SHA => Some("TLS_PSK_WITH_AES_256_CBC_SHA"),
            Self::TLS_DHE_PSK_WITH_RC4_128_SHA => Some("TLS_DHE_PSK_WITH_RC4_128_SHA"),
            Self::TLS_DHE_PSK_WITH_3DES_EDE_CBC_SHA => Some("TLS_DHE_PSK_WITH_3DES_EDE_CBC_SHA"),
            Self::TLS_DHE_PSK_WITH_AES_128_CBC_SHA => Some("TLS_DHE_PSK_WITH_AES_128_CBC_SHA"),
            Self::TLS_DHE_PSK_WITH_AES_256_CBC_SHA => Some("TLS_DHE_PSK_WITH_AES_256_CBC_SHA"),
            Self::TLS_RSA_PSK_WITH_RC4_128_SHA => Some("TLS_RSA_PSK_WITH_RC4_128_SHA"),
            Self::TLS_RSA_PSK_WITH_3DES_EDE_CBC_SHA => Some("TLS_RSA_PSK_WITH_3DES_EDE_CBC_SHA"),
            Self::TLS_RSA_PSK_WITH_AES_128_CBC_SHA => Some("TLS_RSA_PSK_WITH_AES_128_CBC_SHA"),
            Self::TLS_RSA_PSK_WITH_AES_256_CBC_SHA => Some("TLS_RSA_PSK_WITH_AES_256_CBC_SHA"),
            Self::TLS_RSA_WITH_SEED_CBC_SHA => Some("TLS_RSA_WITH_SEED_CBC_SHA"),
            Self::TLS_DH_DSS_WITH_SEED_CBC_SHA => Some("TLS_DH_DSS_WITH_SEED_CBC_SHA"),
            Self::TLS_DH_RSA_WITH_SEED_CBC_SHA => Some("TLS_DH_RSA_WITH_SEED_CBC_SHA"),
            Self::TLS_DHE_DSS_WITH_SEED_CBC_SHA => Some("TLS_DHE_DSS_WITH_SEED_CBC_SHA"),
            Self::TLS_DHE_RSA_WITH_SEED_CBC_SHA => Some("TLS_DHE_RSA_WITH_SEED_CBC_SHA"),
            Self::TLS_DH_anon_WITH_SEED_CBC_SHA => Some("TLS_DH_anon_WITH_SEED_CBC_SHA"),
            Self::TLS_RSA_WITH_AES_128_GCM_SHA256 => Some("TLS_RSA_WITH_AES_128_GCM_SHA256"),
            Self::TLS_RSA_WITH_AES_256_GCM_SHA384 => Some("TLS_RSA_WITH_AES_256_GCM_SHA384"),
            Self::TLS_DHE_RSA_WITH_AES_128_GCM_SHA256 => Some("TLS_DHE_RSA_WITH_AES_128_GCM_SHA256"),
            Self::TLS_DHE_RSA_WITH_AES_256_GCM_SHA384 => Some("TLS_DHE_RSA_WITH_AES_256_GCM_SHA384"),
            Self::TLS_DH_RSA_WITH_AES_128_GCM_SHA256 => Some("TLS_DH_RSA_WITH_AES_128_GCM_SHA256"),
            Self::TLS_DH_RSA_WITH_AES_256_GCM_SHA384 => Some("TLS_DH_RSA_WITH_AES_256_GCM_SHA384"),
            Self::TLS_DHE_DSS_WITH_AES_128_GCM_SHA256 => Some("TLS_DHE_DSS_WITH_AES_128_GCM_SHA256"),
            Self::TLS_DHE_DSS_WITH_AES_256_GCM_SHA384 => Some("TLS_DHE_DSS_WITH_AES_256_GCM_SHA384"),
            Self::TLS_DH_DSS_WITH_AES_128_GCM_SHA256 => Some("TLS_DH_DSS_WITH_AES_128_GCM_SHA256"),
            Self::TLS_DH_DSS_WITH_AES_256_GCM_SHA384 => Some("TLS_DH_DSS_WITH_AES_256_GCM_SHA384"),
            Self::TLS_DH_anon_WITH_AES_128_GCM_SHA256 => Some("TLS_DH_anon_WITH_AES_128_GCM_SHA256"),
            Self::TLS_DH_anon_WITH_AES_256_GCM_SHA384 => Some("TLS_DH_anon_WITH_AES_256_GCM_SHA384"),
            Self::TLS_DHE_PSK_WITH_AES_128_GCM_SHA256 => Some("TLS_DHE_PSK_WITH_AES_128_GCM_SHA256"),
            Self::TLS_DHE_PSK_WITH_AES_256_GCM_SHA384 => Some("TLS_DHE_PSK_WITH_AES_256_GCM_SHA384"),
            Self::TLS_RSA_PSK_WITH_AES_128_GCM_SHA256 => Some("TLS_RSA_PSK_WITH_AES_128_GCM_SHA256"),
            Self::TLS_RSA_PSK_WITH_AES_256_GCM_SHA384 => Some("TLS_RSA_PSK_WITH_AES_256_GCM_SHA384"),
            Self::TLS_PSK_WITH_AES_128_CBC_SHA256 => Some("TLS_PSK_WITH_AES_128_CBC_SHA256"),
            Self::TLS_PSK_WITH_AES_256_CBC_SHA384 => Some("TLS_PSK_WITH_AES_256_CBC_SHA384"),
            Self::TLS_PSK_WITH_NULL_SHA256 => Some("TLS_PSK_WITH_NULL_SHA256"),
            Self::TLS_PSK_WITH_NULL_SHA384 => Some("TLS_PSK_WITH_NULL_SHA384"),
            Self::TLS_DHE_PSK_WITH_AES_128_CBC_SHA256 => Some("TLS_DHE_PSK_WITH_AES_128_CBC_SHA256"),
            Self::TLS_DHE_PSK_WITH_AES_256_CBC_SHA384 => Some("TLS_DHE_PSK_WITH_AES_256_CBC_SHA384"),
            Self::TLS_DHE_PSK_WITH_NULL_SHA256 => Some("TLS_DHE_PSK_WITH_NULL_SHA256"),
            Self::TLS_DHE_PSK_WITH_NULL_SHA384 => Some("TLS_DHE_PSK_WITH_NULL_SHA384"),
            Self::TLS_RSA_PSK_WITH_AES_128_CBC_SHA256 => Some("TLS_RSA_PSK_WITH_AES_128_CBC_SHA256"),
            Self::TLS_RSA_PSK_WITH_AES_256_CBC_SHA384 => Some("TLS_RSA_PSK_WITH_AES_256_CBC_SHA384"),
            Self::TLS_RSA_PSK_WITH_NULL_SHA256 => Some("TLS_RSA_PSK_WITH_NULL_SHA256"),
            Self::TLS_RSA_PSK_WITH_NULL_SHA384 => Some("TLS_RSA_PSK_WITH_NULL_SHA384"),
            Self::TLS_RSA_WITH_CAMELLIA_128_CBC_SHA256 => Some("TLS_RSA_WITH_CAMELLIA_128_CBC_SHA256"),
            Self::TLS_DH_DSS_WITH_CAMELLIA_128_CBC_SHA256 => Some("TLS_DH_DSS_WITH_CAMELLIA_128_CBC_SHA256"),
            Self::TLS_DH_RSA_WITH_CAMELLIA_128_CBC_SHA256 => Some("TLS_DH_RSA_WITH_CAMELLIA_128_CBC_SHA256"),
            Self::TLS_DHE_DSS_WITH_CAMELLIA_128_CBC_SHA256 => Some("TLS_DHE_DSS_WITH_CAMELLIA_128_CBC_SHA256"),
            Self::TLS_DHE_RSA_WITH_CAMELLIA_128_CBC_SHA256 => Some("TLS_DHE_RSA_WITH_CAMELLIA_128_CBC_SHA256"),
            Self::TLS_DH_anon_WITH_CAMELLIA_128_CBC_SHA256 => Some("TLS_DH_anon_WITH_CAMELLIA_128_CBC_SHA256"),
            Self::TLS_RSA_WITH_CAMELLIA_256_CBC_SHA256 => Some("TLS_RSA_WITH_CAMELLIA_256_CBC_SHA256"),
            Self::TLS_DH_DSS_WITH_CAMELLIA_256_CBC_SHA256 => Some("TLS_DH_DSS_WITH_CAMELLIA_256_CBC_SHA256"),
            Self::TLS_DH_RSA_WITH_CAMELLIA_256_CBC_SHA256 => Some("TLS_DH_RSA_WITH_CAMELLIA_256_CBC_SHA256"),
            Self::TLS_DHE_DSS_WITH_CAMELLIA_256_CBC_SHA256 => Some("TLS_DHE_DSS_WITH_CAMELLIA_256_CBC_SHA256"),
            Self::TLS_DHE_RSA_WITH_CAMELLIA_256_CBC_SHA256 => Some("TLS_DHE_RSA_WITH_CAMELLIA_256_CBC_SHA256"),
            Self::TLS_DH_anon_WITH_CAMELLIA_256_CBC_SHA256 => Some("TLS_DH_anon_WITH_CAMELLIA_256_CBC_SHA256"),
            Self::TLS_ECDH_ECDSA_WITH_NULL_SHA => Some("TLS_ECDH_ECDSA_WITH_NULL_SHA"),
            Self::TLS_ECDH_ECDSA_WITH_RC4_128_SHA => Some("TLS_ECDH_ECDSA_WITH_RC4_128_SHA"),
            Self::TLS_ECDH_ECDSA_WITH_3DES_EDE_CBC_SHA => Some("TLS_ECDH_ECDSA_WITH_3DES_EDE_CBC_SHA"),
            Self::TLS_ECDH_ECDSA_WITH_AES_128_CBC_SHA => Some("TLS_ECDH_ECDSA_WITH_AES_128_CBC_SHA"),
            Self::TLS_ECDH_ECDSA_WITH_AES_256_CBC_SHA => Some("TLS_ECDH_ECDSA_WITH_AES_256_CBC_SHA"),
            Self::TLS_ECDHE_ECDSA_WITH_NULL_SHA => Some("TLS_ECDHE_ECDSA_WITH_NULL_SHA"),
            Self::TLS_ECDHE_ECDSA_WITH_RC4_128_SHA => Some("TLS_ECDHE_ECDSA_WITH_RC4_128_SHA"),
            Self::TLS_ECDHE_ECDSA_WITH_3DES_EDE_CBC_SHA => Some("TLS_ECDHE_ECDSA_WITH_3DES_EDE_CBC_SHA"),
            Self::TLS_ECDH_RSA_WITH_NULL_SHA => Some("TLS_ECDH_RSA_WITH_NULL_SHA"),
            Self::TLS_ECDH_RSA_WITH_RC4_128_SHA => Some("TLS_ECDH_RSA_WITH_RC4_128_SHA"),
            Self::TLS_ECDH_RSA_WITH_3DES_EDE_CBC_SHA => Some("TLS_ECDH_RSA_WITH_3DES_EDE_CBC_SHA"),
            Self::TLS_ECDH_RSA_WITH_AES_128_CBC_SHA => Some("TLS_ECDH_RSA_WITH_AES_128_CBC_SHA"),
            Self::TLS_ECDH_RSA_WITH_AES_256_CBC_SHA => Some("TLS_ECDH_RSA_WITH_AES_256_CBC_SHA"),
            Self::TLS_ECDHE_RSA_WITH_NULL_SHA => Some("TLS_ECDHE_RSA_WITH_NULL_SHA"),
            Self::TLS_ECDHE_RSA_WITH_RC4_128_SHA => Some("TLS_ECDHE_RSA_WITH_RC4_128_SHA"),
            Self::TLS_ECDHE_RSA_WITH_3DES_EDE_CBC_SHA => Some("TLS_ECDHE_RSA_WITH_3DES_EDE_CBC_SHA"),
            Self::TLS_ECDH_anon_WITH_NULL_SHA => Some("TLS_ECDH_anon_WITH_NULL_SHA"),
            Self::TLS_ECDH_anon_WITH_RC4_128_SHA => Some("TLS_ECDH_anon_WITH_RC4_128_SHA"),
            Self::TLS_ECDH_anon_WITH_3DES_EDE_CBC_SHA => Some("TLS_ECDH_anon_WITH_3DES_EDE_CBC_SHA"),
            Self::TLS_ECDH_anon_WITH_AES_128_CBC_SHA => Some("TLS_ECDH_anon_WITH_AES_128_CBC_SHA"),
            Self::TLS_ECDH_anon_WITH_AES_256_CBC_SHA => Some("TLS_ECDH_anon_WITH_AES_256_CBC_SHA"),
            Self::TLS_SRP_SHA_WITH_3DES_EDE_CBC_SHA => Some("TLS_SRP_SHA_WITH_3DES_EDE_CBC_SHA"),
            Self::TLS_SRP_SHA_RSA_WITH_3DES_EDE_CBC_SHA => Some("TLS_SRP_SHA_RSA_WITH_3DES_EDE_CBC_SHA"),
            Self::TLS_SRP_SHA_DSS_WITH_3DES_EDE_CBC_SHA => Some("TLS_SRP_SHA_DSS_WITH_3DES_EDE_CBC_SHA"),
            Self::TLS_SRP_SHA_WITH_AES_128_CBC_SHA => Some("TLS_SRP_SHA_WITH_AES_128_CBC_SHA"),
            Self::TLS_SRP_SHA_RSA_WITH_AES_128_CBC_SHA => Some("TLS_SRP_SHA_RSA_WITH_AES_128_CBC_SHA"),
            Self::TLS_SRP_SHA_DSS_WITH_AES_128_CBC_SHA => Some("TLS_SRP_SHA_DSS_WITH_AES_128_CBC_SHA"),
            Self::TLS_SRP_SHA_WITH_AES_256_CBC_SHA => Some("TLS_SRP_SHA_WITH_AES_256_CBC_SHA"),
            Self::TLS_SRP_SHA_RSA_WITH_AES_256_CBC_SHA => Some("TLS_SRP_SHA_RSA_WITH_AES_256_CBC_SHA"),
            Self::TLS_SRP_SHA_DSS_WITH_AES_256_CBC_SHA => Some("TLS_SRP_SHA_DSS_WITH_AES_256_CBC_SHA"),
            Self::TLS_ECDH_ECDSA_WITH_AES_128_CBC_SHA256 => Some("TLS_ECDH_ECDSA_WITH_AES_128_CBC_SHA256"),
            Self::TLS_ECDH_ECDSA_WITH_AES_256_CBC_SHA384 => Some("TLS_ECDH_ECDSA_WITH_AES_256_CBC_SHA384"),
            Self::TLS_ECDH_RSA_WITH_AES_128_CBC_SHA256 => Some("TLS_ECDH_RSA_WITH_AES_128_CBC_SHA256"),
            Self::TLS_ECDH_RSA_WITH_AES_256_CBC_SHA384 => Some("TLS_ECDH_RSA_WITH_AES_256_CBC_SHA384"),
            Self::TLS_ECDH_ECDSA_WITH_AES_128_GCM_SHA256 => Some("TLS_ECDH_ECDSA_WITH_AES_128_GCM_SHA256"),
            Self::TLS_ECDH_ECDSA_WITH_AES_256_GCM_SHA384 => Some("TLS_ECDH_ECDSA_WITH_AES_256_GCM_SHA384"),
            Self::TLS_ECDH_RSA_WITH_AES_128_GCM_SHA256 => Some("TLS_ECDH_RSA_WITH_AES_128_GCM_SHA256"),
            Self::TLS_ECDH_RSA_WITH_AES_256_GCM_SHA384 => Some("TLS_ECDH_RSA_WITH_AES_256_GCM_SHA384"),
            Self::TLS_ECDHE_PSK_WITH_RC4_128_SHA => Some("TLS_ECDHE_PSK_WITH_RC4_128_SHA"),
            Self::TLS_ECDHE_PSK_WITH_3DES_EDE_CBC_SHA => Some("TLS_ECDHE_PSK_WITH_3DES_EDE_CBC_SHA"),
            Self::TLS_ECDHE_PSK_WITH_AES_128_CBC_SHA => Some("TLS_ECDHE_PSK_WITH_AES_128_CBC_SHA"),
            Self::TLS_ECDHE_PSK_WITH_AES_256_CBC_SHA => Some("TLS_ECDHE_PSK_WITH_AES_256_CBC_SHA"),
            Self::TLS_ECDHE_PSK_WITH_AES_128_CBC_SHA256 => Some("TLS_ECDHE_PSK_WITH_AES_128_CBC_SHA256"),
            Self::TLS_ECDHE_PSK_WITH_AES_256_CBC_SHA384 => Some("TLS_ECDHE_PSK_WITH_AES_256_CBC_SHA384"),
            Self::TLS_ECDHE_PSK_WITH_NULL_SHA => Some("TLS_ECDHE_PSK_WITH_NULL_SHA"),
            Self::TLS_ECDHE_PSK_WITH_NULL_SHA256 => Some("TLS_ECDHE_PSK_WITH_NULL_SHA256"),
            Self::TLS_ECDHE_PSK_WITH_NULL_SHA384 => Some("TLS_ECDHE_PSK_WITH_NULL_SHA384"),
            Self::TLS_RSA_WITH_ARIA_128_CBC_SHA256 => Some("TLS_RSA_WITH_ARIA_128_CBC_SHA256"),
            Self::TLS_RSA_WITH_ARIA_256_CBC_SHA384 => Some("TLS_RSA_WITH_ARIA_256_CBC_SHA384"),
            Self::TLS_DH_DSS_WITH_ARIA_128_CBC_SHA256 => Some("TLS_DH_DSS_WITH_ARIA_128_CBC_SHA256"),
            Self::TLS_DH_DSS_WITH_ARIA_256_CBC_SHA384 => Some("TLS_DH_DSS_WITH_ARIA_256_CBC_SHA384"),
            Self::TLS_DH_RSA_WITH_ARIA_128_CBC_SHA256 => Some("TLS_DH_RSA_WITH_ARIA_128_CBC_SHA256"),
            Self::TLS_DH_RSA_WITH_ARIA_256_CBC_SHA384 => Some("TLS_DH_RSA_WITH_ARIA_256_CBC_SHA384"),
            Self::TLS_DHE_DSS_WITH_ARIA_128_CBC_SHA256 => Some("TLS_DHE_DSS_WITH_ARIA_128_CBC_SHA256"),
            Self::TLS_DHE_DSS_WITH_ARIA_256_CBC_SHA384 => Some("TLS_DHE_DSS_WITH_ARIA_256_CBC_SHA384"),
            Self::TLS_DHE_RSA_WITH_ARIA_128_CBC_SHA256 => Some("TLS_DHE_RSA_WITH_ARIA_128_CBC_SHA256"),
            Self::TLS_DHE_RSA_WITH_ARIA_256_CBC_SHA384 => Some("TLS_DHE_RSA_WITH_ARIA_256_CBC_SHA384"),
            Self::TLS_DH_anon_WITH_ARIA_128_CBC_SHA256 => Some("TLS_DH_anon_WITH_ARIA_128_CBC_SHA256"),
            Self::TLS_DH_anon_WITH_ARIA_256_CBC_SHA384 => Some("TLS_DH_anon_WITH_ARIA_256_CBC_SHA384"),
            Self::TLS_ECDHE_ECDSA_WITH_ARIA_128_CBC_SHA256 => Some("TLS_ECDHE_ECDSA_WITH_ARIA_128_CBC_SHA256"),
            Self::TLS_ECDHE_ECDSA_WITH_ARIA_256_CBC_SHA384 => Some("TLS_ECDHE_ECDSA_WITH_ARIA_256_CBC_SHA384"),
            Self::TLS_ECDH_ECDSA_WITH_ARIA_128_CBC_SHA256 => Some("TLS_ECDH_ECDSA_WITH_ARIA_128_CBC_SHA256"),
            Self::TLS_ECDH_ECDSA_WITH_ARIA_256_CBC_SHA384 => Some("TLS_ECDH_ECDSA_WITH_ARIA_256_CBC_SHA384"),
            Self::TLS_ECDHE_RSA_WITH_ARIA_128_CBC_SHA256 => Some("TLS_ECDHE_RSA_WITH_ARIA_128_CBC_SHA256"),
            Self::TLS_ECDHE_RSA_WITH_ARIA_256_CBC_SHA384 => Some("TLS_ECDHE_RSA_WITH_ARIA_256_CBC_SHA384"),
            Self::TLS_ECDH_RSA_WITH_ARIA_128_CBC_SHA256 => Some("TLS_ECDH_RSA_WITH_ARIA_128_CBC_SHA256"),
            Self::TLS_ECDH_RSA_WITH_ARIA_256_CBC_SHA384 => Some("TLS_ECDH_RSA_WITH_ARIA_256_CBC_SHA384"),
            Self::TLS_RSA_WITH_ARIA_128_GCM_SHA256 => Some("TLS_RSA_WITH_ARIA_128_GCM_SHA256"),
            Self::TLS_RSA_WITH_ARIA_256_GCM_SHA384 => Some("TLS_RSA_WITH_ARIA_256_GCM_SHA384"),
            Self::TLS_DHE_RSA_WITH_ARIA_128_GCM_SHA256 => Some("TLS_DHE_RSA_WITH_ARIA_128_GCM_SHA256"),
            Self::TLS_DHE_RSA_WITH_ARIA_256_GCM_SHA384 => Some("TLS_DHE_RSA_WITH_ARIA_256_GCM_SHA384"),
            Self::TLS_DH_RSA_WITH_ARIA_128_GCM_SHA256 => Some("TLS_DH_RSA_WITH_ARIA_128_GCM_SHA256"),
            Self::TLS_DH_RSA_WITH_ARIA_256_GCM_SHA384 => Some("TLS_DH_RSA_WITH_ARIA_256_GCM_SHA384"),
            Self::TLS_DHE_DSS_WITH_ARIA_128_GCM_SHA256 => Some("TLS_DHE_DSS_WITH_ARIA_128_GCM_SHA256"),
            Self::TLS_DHE_DSS_WITH_ARIA_256_GCM_SHA384 => Some("TLS_DHE_DSS_WITH_ARIA_256_GCM_SHA384"),
            Self::TLS_DH_DSS_WITH_ARIA_128_GCM_SHA256 => Some("TLS_DH_DSS_WITH_ARIA_128_GCM_SHA256"),
            Self::TLS_DH_DSS_WITH_ARIA_256_GCM_SHA384 => Some("TLS_DH_DSS_WITH_ARIA_256_GCM_SHA384"),
            Self::TLS_DH_anon_WITH_ARIA_128_GCM_SHA256 => Some("TLS_DH_anon_WITH_ARIA_128_GCM_SHA256"),
            Self::TLS_DH_anon_WITH_ARIA_256_GCM_SHA384 => Some("TLS_DH_anon_WITH_ARIA_256_GCM_SHA384"),
            Self::TLS_ECDHE_ECDSA_WITH_ARIA_128_GCM_SHA256 => Some("TLS_ECDHE_ECDSA_WITH_ARIA_128_GCM_SHA256"),
            Self::TLS_ECDHE_ECDSA_WITH_ARIA_256_GCM_SHA384 => Some("TLS_ECDHE_ECDSA_WITH_ARIA_256_GCM_SHA384"),
            Self::TLS_ECDH_ECDSA_WITH_ARIA_128_GCM_SHA256 => Some("TLS_ECDH_ECDSA_WITH_ARIA_128_GCM_SHA256"),
            Self::TLS_ECDH_ECDSA_WITH_ARIA_256_GCM_SHA384 => Some("TLS_ECDH_ECDSA_WITH_ARIA_256_GCM_SHA384"),
            Self::TLS_ECDHE_RSA_WITH_ARIA_128_GCM_SHA256 => Some("TLS_ECDHE_RSA_WITH_ARIA_128_GCM_SHA256"),
            Self::TLS_ECDHE_RSA_WITH_ARIA_256_GCM_SHA384 => Some("TLS_ECDHE_RSA_WITH_ARIA_256_GCM_SHA384"),
            Self::TLS_ECDH_RSA_WITH_ARIA_128_GCM_SHA256 => Some("TLS_ECDH_RSA_WITH_ARIA_128_GCM_SHA256"),
            Self::TLS_ECDH_RSA_WITH_ARIA_256_GCM_SHA384 => Some("TLS_ECDH_RSA_WITH_ARIA_256_GCM_SHA384"),
            Self::TLS_PSK_WITH_ARIA_128_CBC_SHA256 => Some("TLS_PSK_WITH_ARIA_128_CBC_SHA256"),
            Self::TLS_PSK_WITH_ARIA_256_CBC_SHA384 => Some("TLS_PSK_WITH_ARIA_256_CBC_SHA384"),
            Self::TLS_DHE_PSK_WITH_ARIA_128_CBC_SHA256 => Some("TLS_DHE_PSK_WITH_ARIA_128_CBC_SHA256"),
            Self::TLS_DHE_PSK_WITH_ARIA_256_CBC_SHA384 => Some("TLS_DHE_PSK_WITH_ARIA_256_CBC_SHA384"),
            Self::TLS_RSA_PSK_WITH_ARIA_128_CBC_SHA256 => Some("TLS_RSA_PSK_WITH_ARIA_128_CBC_SHA256"),
            Self::TLS_RSA_PSK_WITH_ARIA_256_CBC_SHA384 => Some("TLS_RSA_PSK_WITH_ARIA_256_CBC_SHA384"),
            Self::TLS_PSK_WITH_ARIA_128_GCM_SHA256 => Some("TLS_PSK_WITH_ARIA_128_GCM_SHA256"),
            Self::TLS_PSK_WITH_ARIA_256_GCM_SHA384 => Some("TLS_PSK_WITH_ARIA_256_GCM_SHA384"),
            Self::TLS_DHE_PSK_WITH_ARIA_128_GCM_SHA256 => Some("TLS_DHE_PSK_WITH_ARIA_128_GCM_SHA256"),
            Self::TLS_DHE_PSK_WITH_ARIA_256_GCM_SHA384 => Some("TLS_DHE_PSK_WITH_ARIA_256_GCM_SHA384"),
            Self::TLS_RSA_PSK_WITH_ARIA_128_GCM_SHA256 => Some("TLS_RSA_PSK_WITH_ARIA_128_GCM_SHA256"),
            Self::TLS_RSA_PSK_WITH_ARIA_256_GCM_SHA384 => Some("TLS_RSA_PSK_WITH_ARIA_256_GCM_SHA384"),
            Self::TLS_ECDHE_PSK_WITH_ARIA_128_CBC_SHA256 => Some("TLS_ECDHE_PSK_WITH_ARIA_128_CBC_SHA256"),
            Self::TLS_ECDHE_PSK_WITH_ARIA_256_CBC_SHA384 => Some("TLS_ECDHE_PSK_WITH_ARIA_256_CBC_SHA384"),
            Self::TLS_ECDHE_ECDSA_WITH_CAMELLIA_128_CBC_SHA256 => Some("TLS_ECDHE_ECDSA_WITH_CAMELLIA_128_CBC_SHA256"),
            Self::TLS_ECDHE_ECDSA_WITH_CAMELLIA_256_CBC_SHA384 => Some("TLS_ECDHE_ECDSA_WITH_CAMELLIA_256_CBC_SHA384"),
            Self::TLS_ECDH_ECDSA_WITH_CAMELLIA_128_CBC_SHA256 => Some("TLS_ECDH_ECDSA_WITH_CAMELLIA_128_CBC_SHA256"),
            Self::TLS_ECDH_ECDSA_WITH_CAMELLIA_256_CBC_SHA384 => Some("TLS_ECDH_ECDSA_WITH_CAMELLIA_256_CBC_SHA384"),
            Self::TLS_ECDHE_RSA_WITH_CAMELLIA_128_CBC_SHA256 => Some("TLS_ECDHE_RSA_WITH_CAMELLIA_128_CBC_SHA256"),
            Self::TLS_ECDHE_RSA_WITH_CAMELLIA_256_CBC_SHA384 => Some("TLS_ECDHE_RSA_WITH_CAMELLIA_256_CBC_SHA384"),
            Self::TLS_ECDH_RSA_WITH_CAMELLIA_128_CBC_SHA256 => Some("TLS_ECDH_RSA_WITH_CAMELLIA_128_CBC_SHA256"),
            Self::TLS_ECDH_RSA_WITH_CAMELLIA_256_CBC_SHA384 => Some("TLS_ECDH_RSA_WITH_CAMELLIA_256_CBC_SHA384"),
            Self::TLS_RSA_WITH_CAMELLIA_128_GCM_SHA256 => Some("TLS_RSA_WITH_CAMELLIA_128_GCM_SHA256"),
            Self::TLS_RSA_WITH_CAMELLIA_256_GCM_SHA384 => Some("TLS_RSA_WITH_CAMELLIA_256_GCM_SHA384"),
            Self::TLS_DHE_RSA_WITH_CAMELLIA_128_GCM_SHA256 => Some("TLS_DHE_RSA_WITH_CAMELLIA_128_GCM_SHA256"),
            Self::TLS_DHE_RSA_WITH_CAMELLIA_256_GCM_SHA384 => Some("TLS_DHE_RSA_WITH_CAMELLIA_256_GCM_SHA384"),
            Self::TLS_DH_RSA_WITH_CAMELLIA_128_GCM_SHA256 => Some("TLS_DH_RSA_WITH_CAMELLIA_128_GCM_SHA256"),
            Self::TLS_DH_RSA_WITH_CAMELLIA_256_GCM_SHA384 => Some("TLS_DH_RSA_WITH_CAMELLIA_256_GCM_SHA384"),
            Self::TLS_DHE_DSS_WITH_CAMELLIA_128_GCM_SHA256 => Some("TLS_DHE_DSS_WITH_CAMELLIA_128_GCM_SHA256"),
            Self::TLS_DHE_DSS_WITH_CAMELLIA_256_GCM_SHA384 => Some("TLS_DHE_DSS_WITH_CAMELLIA_256_GCM_SHA384"),
            Self::TLS_DH_DSS_WITH_CAMELLIA_128_GCM_SHA256 => Some("TLS_DH_DSS_WITH_CAMELLIA_128_GCM_SHA256"),
            Self::TLS_DH_DSS_WITH_CAMELLIA_256_GCM_SHA384 => Some("TLS_DH_DSS_WITH_CAMELLIA_256_GCM_SHA384"),
            Self::TLS_DH_anon_WITH_CAMELLIA_128_GCM_SHA256 => Some("TLS_DH_anon_WITH_CAMELLIA_128_GCM_SHA256"),
            Self::TLS_DH_anon_WITH_CAMELLIA_256_GCM_SHA384 => Some("TLS_DH_anon_WITH_CAMELLIA_256_GCM_SHA384"),
            Self::TLS_ECDHE_ECDSA_WITH_CAMELLIA_128_GCM_SHA256 => Some("TLS_ECDHE_ECDSA_WITH_CAMELLIA_128_GCM_SHA256"),
            Self::TLS_ECDHE_ECDSA_WITH_CAMELLIA_256_GCM_SHA384 => Some("TLS_ECDHE_ECDSA_WITH_CAMELLIA_256_GCM_SHA384"),
            Self::TLS_ECDH_ECDSA_WITH_CAMELLIA_128_GCM_SHA256 => Some("TLS_ECDH_ECDSA_WITH_CAMELLIA_128_GCM_SHA256"),
            Self::TLS_ECDH_ECDSA_WITH_CAMELLIA_256_GCM_SHA384 => Some("TLS_ECDH_ECDSA_WITH_CAMELLIA_256_GCM_SHA384"),
            Self::TLS_ECDHE_RSA_WITH_CAMELLIA_128_GCM_SHA256 => Some("TLS_ECDHE_RSA_WITH_CAMELLIA_128_GCM_SHA256"),
            Self::TLS_ECDHE_RSA_WITH_CAMELLIA_256_GCM_SHA384 => Some("TLS_ECDHE_RSA_WITH_CAMELLIA_256_GCM_SHA384"),
            Self::TLS_ECDH_RSA_WITH_CAMELLIA_128_GCM_SHA256 => Some("TLS_ECDH_RSA_WITH_CAMELLIA_128_GCM_SHA256"),
            Self::TLS_ECDH_RSA_WITH_CAMELLIA_256_GCM_SHA384 => Some("TLS_ECDH_RSA_WITH_CAMELLIA_256_GCM_SHA384"),
            Self::TLS_PSK_WITH_CAMELLIA_128_GCM_SHA256 => Some("TLS_PSK_WITH_CAMELLIA_128_GCM_SHA256"),
            Self::TLS_PSK_WITH_CAMELLIA_256_GCM_SHA384 => Some("TLS_PSK_WITH_CAMELLIA_256_GCM_SHA384"),
            Self::TLS_DHE_PSK_WITH_CAMELLIA_128_GCM_SHA256 => Some("TLS_DHE_PSK_WITH_CAMELLIA_128_GCM_SHA256"),
            Self::TLS_DHE_PSK_WITH_CAMELLIA_256_GCM_SHA384 => Some("TLS_DHE_PSK_WITH_CAMELLIA_256_GCM_SHA384"),
            Self::TLS_RSA_PSK_WITH_CAMELLIA_128_GCM_SHA256 => Some("TLS_RSA_PSK_WITH_CAMELLIA_128_GCM_SHA256"),
            Self::TLS_RSA_PSK_WITH_CAMELLIA_256_GCM_SHA384 => Some("TLS_RSA_PSK_WITH_CAMELLIA_256_GCM_SHA384"),
            Self::TLS_PSK_WITH_CAMELLIA_128_CBC_SHA256 => Some("TLS_PSK_WITH_CAMELLIA_128_CBC_SHA256"),
            Self::TLS_PSK_WITH_CAMELLIA_256_CBC_SHA384 => Some("TLS_PSK_WITH_CAMELLIA_256_CBC_SHA384"),
            Self::TLS_DHE_PSK_WITH_CAMELLIA_128_CBC_SHA256 => Some("TLS_DHE_PSK_WITH_CAMELLIA_128_CBC_SHA256"),
            Self::TLS_DHE_PSK_WITH_CAMELLIA_256_CBC_SHA384 => Some("TLS_DHE_PSK_WITH_CAMELLIA_256_CBC_SHA384"),
            Self::TLS_RSA_PSK_WITH_CAMELLIA_128_CBC_SHA256 => Some("TLS_RSA_PSK_WITH_CAMELLIA_128_CBC_SHA256"),
            Self::TLS_RSA_PSK_WITH_CAMELLIA_256_CBC_SHA384 => Some("TLS_RSA_PSK_WITH_CAMELLIA_256_CBC_SHA384"),
            Self::TLS_ECDHE_PSK_WITH_CAMELLIA_128_CBC_SHA256 => Some("TLS_ECDHE_PSK_WITH_CAMELLIA_128_CBC_SHA256"),
            Self::TLS_ECDHE_PSK_WITH_CAMELLIA_256_CBC_SHA384 => Some("TLS_ECDHE_PSK_WITH_CAMELLIA_256_CBC_SHA384"),
            Self::TLS_RSA_WITH_AES_128_CCM => Some("TLS_RSA_WITH_AES_128_CCM"),
            Self::TLS_RSA_WITH_AES_256_CCM => Some("TLS_RSA_WITH_AES_256_CCM"),
            Self::TLS_DHE_RSA_WITH_AES_128_CCM => Some("TLS_DHE_RSA_WITH_AES_128_CCM"),
            Self::TLS_DHE_RSA_WITH_AES_256_CCM => Some("TLS_DHE_RSA_WITH_AES_256_CCM"),
            Self::TLS_RSA_WITH_AES_128_CCM_8 => Some("TLS_RSA_WITH_AES_128_CCM_8"),
            Self::TLS_RSA_WITH_AES_256_CCM_8 => Some("TLS_RSA_WITH_AES_256_CCM_8"),
            Self::TLS_DHE_RSA_WITH_AES_128_CCM_8 => Some("TLS_DHE_RSA_WITH_AES_128_CCM_8"),
            Self::TLS_DHE_RSA_WITH_AES_256_CCM_8 => Some("TLS_DHE_RSA_WITH_AES_256_CCM_8"),
            Self::TLS_PSK_WITH_AES_128_CCM => Some("TLS_PSK_WITH_AES_128_CCM"),
            Self::TLS_PSK_WITH_AES_256_CCM => Some("TLS_PSK_WITH_AES_256_CCM"),
            Self::TLS_DHE_PSK_WITH_AES_128_CCM => Some("TLS_DHE_PSK_WITH_AES_128_CCM"),
            Self::TLS_DHE_PSK_WITH_AES_256_CCM => Some("TLS_DHE_PSK_WITH_AES_256_CCM"),
            Self::TLS_PSK_WITH_AES_128_CCM_8 => Some("TLS_PSK_WITH_AES_128_CCM_8"),
            Self::TLS_PSK_WITH_AES_256_CCM_8 => Some("TLS_PSK_WITH_AES_256_CCM_8"),
            Self::TLS_PSK_DHE_WITH_AES_128_CCM_8 => Some("TLS_PSK_DHE_WITH_AES_128_CCM_8"),
            Self::TLS_PSK_DHE_WITH_AES_256_CCM_8 => Some("TLS_PSK_DHE_WITH_AES_256_CCM_8"),
            Self::TLS_ECDHE_ECDSA_WITH_AES_128_CCM => Some("TLS_ECDHE_ECDSA_WITH_AES_128_CCM"),
            Self::TLS_ECDHE_ECDSA_WITH_AES_256_CCM => Some("TLS_ECDHE_ECDSA_WITH_AES_256_CCM"),
            Self::TLS_ECDHE_ECDSA_WITH_AES_128_CCM_8 => Some("TLS_ECDHE_ECDSA_WITH_AES_128_CCM_8"),
            Self::TLS_ECDHE_ECDSA_WITH_AES_256_CCM_8 => Some("TLS_ECDHE_ECDSA_WITH_AES_256_CCM_8"),
            Self::TLS_DHE_RSA_WITH_CHACHA20_POLY1305_SHA256 => Some("TLS_DHE_RSA_WITH_CHACHA20_POLY1305_SHA256"),
            Self::TLS_PSK_WITH_CHACHA20_POLY1305_SHA256 => Some("TLS_PSK_WITH_CHACHA20_POLY1305_SHA256"),
            Self::TLS_ECDHE_PSK_WITH_CHACHA20_POLY1305_SHA256 => Some("TLS_ECDHE_PSK_WITH_CHACHA20_POLY1305_SHA256"),
            Self::TLS_DHE_PSK_WITH_CHACHA20_POLY1305_SHA256 => Some("TLS_DHE_PSK_WITH_CHACHA20_POLY1305_SHA256"),
            Self::TLS_RSA_PSK_WITH_CHACHA20_POLY1305_SHA256 => Some("TLS_RSA_PSK_WITH_CHACHA20_POLY1305_SHA256"),
            Self::SSL_RSA_FIPS_WITH_DES_CBC_SHA => Some("SSL_RSA_FIPS_WITH_DES_CBC_SHA"),
            Self::SSL_RSA_FIPS_WITH_3DES_EDE_CBC_SHA => Some("SSL_RSA_FIPS_WITH_3DES_EDE_CBC_SHA"),
            Self::Unknown(_) => None,
        }
    }

    open spec fn spec_quiet(self) -> bool {
        match Self::spec_from_code(self.spec_code()) {
            Self::TLS_NULL_WITH_NULL_NULL => false,
            Self::TLS_PSK_WITH_AES_128_GCM_SHA256 => false,
            Self::TLS_PSK_WITH_AES_256_GCM_SHA384 => false,
            Self::TLS_EMPTY_RENEGOTIATION_INFO_SCSV => false,
            Self::TLS13_AES_128_GCM_SHA256 => false,
            Self::TLS13_AES_256_GCM_SHA384 => false,
            Self::TLS13_CHACHA20_POLY1305_SHA256 => false,
            Self::TLS13_AES_128_CCM_SHA256 => false,
            Self::TLS13_AES_128_CCM_8_SHA256 => false,
            Self::TLS_ECDHE_ECDSA_WITH_AES_128_CBC_SHA => false,
            Self::TLS_ECDHE_ECDSA_WITH_AES_256_CBC_SHA => false,
            Self::TLS_ECDHE_RSA_WITH_AES_128_CBC_SHA => false,
            Self::TLS_ECDHE_RSA_WITH_AES_256_CBC_SHA => false,
            Self::TLS_ECDHE_ECDSA_WITH_AES_128_CBC_SHA256 => false,
            Self::TLS_ECDHE_ECDSA_WITH_AES_256_CBC_SHA384 => false,
            Self::TLS_ECDHE_RSA_WITH_AES_128_CBC_SHA256 => false,
            Self::TLS_ECDHE_RSA_WITH_AES_256_CBC_SHA384 => false,
            Self::TLS_ECDHE_ECDSA_WITH_AES_128_GCM_SHA256 => false,
            Self::TLS_ECDHE_ECDSA_WITH_AES_256_GCM_SHA384 => false,
            Self::TLS_ECDHE_RSA_WITH_AES_128_GCM_SHA256 => false,
            Self::TLS_ECDHE_RSA_WITH_AES_256_GCM_SHA384 => false,
            Self::TLS_ECDHE_RSA_WITH_CHACHA20_POLY1305_SHA256 => false,
            Self::TLS_ECDHE_ECDSA_WITH_CHACHA20_POLY1305_SHA256 => false,
            Self::Unknown(_) => false,
            _ => true,
        }
    }

    #[verifier::rlimit(100)]
    proof fn lemma_code_of_decoded(code: u16) {
    }

    proof fn lemma_goes_by_code(a: Self, b: Self) {
    }

    fn registry() -> (name: &'static str) {
        "CipherSuite"
    }

    fn code(self) -> (code: u16) {
        match self {
            Self::TLS_NULL_WITH_NULL_NULL => 0x0000,
            Self::TLS_PSK_WITH_AES_128_GCM_SHA256 => 0x00a8,
            Self::TLS_PSK_WITH_AES_256_GCM_SHA384 => 0x00a9,
            Self::TLS_EMPTY_RENEGOTIATION_INFO_SCSV => 0x00ff,
            Self::TLS13_AES_128_GCM_SHA256 => 0x1301,
            Self::TLS13_AES_256_GCM_SHA384 => 0x1302,
            Self::TLS13_CHACHA20_POLY1305_SHA256 => 0x1303,
            Self::TLS13_AES_128_CCM_SHA256 => 0x1304,
            Self::TLS13_AES_128_CCM_8_SHA256 => 0x1305,
            Self::TLS_ECDHE_ECDSA_WITH_AES_128_CBC_SHA => 0xc009,
            Self::TLS_ECDHE_ECDSA_WITH_AES_256_CBC_SHA => 0xc00a,
            Self::TLS_ECDHE_RSA_WITH_AES_128_CBC_SHA => 0xc013,
            Self::TLS_ECDHE_RSA_WITH_AES_256_CBC_SHA => 0xc014,
            Self::TLS_ECDHE_ECDSA_WITH_AES_128_CBC_SHA256 => 0xc023,
            Self::TLS_ECDHE_ECDSA_WITH_AES_256_CBC_SHA384 => 0xc024,
            Self::TLS_ECDHE_RSA_WITH_AES_128_CBC_SHA256 => 0xc027,
            Self::TLS_ECDHE_RSA_WITH_AES_256_CBC_SHA384 => 0xc028,
            Self::TLS_ECDHE_ECDSA_WITH_AES_128_GCM_SHA256 => 0xc02b,
            Self::TLS_ECDHE_ECDSA_WITH_AES_256_GCM_SHA384 => 0xc02c,
            Self::TLS_ECDHE_RSA_WITH_AES_128_GCM_SHA256 => 0xc02f,
            Self::TLS_ECDHE_RSA_WITH_AES_256_GCM_SHA384 => 0xc030,
            Self::TLS_ECDHE_RSA_WITH_CHACHA20_POLY1305_SHA256 => 0xcca8,
            Self::TLS_ECDHE_ECDSA_WITH_CHACHA20_POLY1305_SHA256 => 0xcca9,
            Self::TLS_RSA_WITH_NULL_MD5 => 0x0001,
            Self::TLS_RSA_WITH_NULL_SHA => 0x0002,
            Self::TLS_RSA_EXPORT_WITH_RC4_40_MD5 => 0x0003,
            Self::TLS_RSA_WITH_RC4_128_MD5 => 0x0004,
            Self::TLS_RSA_WITH_RC4_128_SHA => 0x0005,
            Self::TLS_RSA_EXPORT_WITH_RC2_CBC_40_MD5 => 0x0006,
            Self::TLS_RSA_WITH_IDEA_CBC_SHA => 0x0007,
            Self::TLS_RSA_EXPORT_WITH_DES40_CBC_SHA => 0x0008,
            Self::TLS_RSA_WITH_DES_CBC_SHA => 0x0009,
            Self::TLS_RSA_WITH_3DES_EDE_CBC_SHA => 0x000a,
            Self::TLS_DH_DSS_EXPORT_WITH_DES40_CBC_SHA => 0x000b,
            Self::TLS_DH_DSS_WITH_DES_CBC_SHA => 0x000c,
            Self::TLS_DH_DSS_WITH_3DES_EDE_CBC_SHA => 0x000d,
            Self::TLS_DH_RSA_EXPORT_WITH_DES40_CBC_SHA => 0x000e,
            Self::TLS_DH_RSA_WITH_DES_CBC_SHA => 0x000f,
            Self::TLS_DH_RSA_WITH_3DES_EDE_CBC_SHA => 0x0010,
            Self::TLS_DHE_DSS_EXPORT_WITH_DES40_CBC_SHA => 0x0011,
            Self::TLS_DHE_DSS_WITH_DES_CBC_SHA => 0x0012,
            Self::TLS_DHE_DSS_WITH_3DES_EDE_CBC_SHA => 0x0013,
            Self::TLS_DHE_RSA_EXPORT_WITH_DES40_CBC_SHA => 0x0014,
            Self::TLS_DHE_RSA_WITH_DES_CBC_SHA => 0x0015,
            Self::TLS_DHE_RSA_WITH_3DES_EDE_CBC_SHA => 0x0016,
            Self::TLS_DH_anon_EXPORT_WITH_RC4_40_MD5 => 0x0017,
            Self::TLS_DH_anon_WITH_RC4_128_MD5 => 0x0018,
            Self::TLS_DH_anon_EXPORT_WITH_DES40_CBC_SHA => 0x0019,
            Self::TLS_DH_anon_WITH_DES_CBC_SHA => 0x001a,
            Self::TLS_DH_anon_WITH_3DES_EDE_CBC_SHA => 0x001b,
            Self::SSL_FORTEZZA_KEA_WITH_NULL_SHA => 0x001c,
            Self::SSL_FORTEZZA_KEA_WITH_FORTEZZA_CBC_SHA => 0x001d,
            Self::TLS_KRB5_WITH_DES_CBC_SHA_or_SSL_FORTEZZA_KEA_WITH_RC4_128_SHA => 0x001e,
            Self::TLS_KRB5_WITH_3DES_EDE_CBC_SHA => 0x001f,
            Self::TLS_KRB5_WITH_RC4_128_SHA => 0x0020,
            Self::TLS_KRB5_WITH_IDEA_CBC_SHA => 0x0021,
            Self::TLS_KRB5_WITH_DES_CBC_MD5 => 0x0022,
            Self::TLS_KRB5_WITH_3DES_EDE_CBC_MD5 => 0x0023,
            Self::TLS_KRB5_WITH_RC4_128_MD5 => 0x0024,
            Self::TLS_KRB5_WITH_IDEA_CBC_MD5 => 0x0025,
            Self::TLS_KRB5_EXPORT_WITH_DES_CBC_40_SHA => 0x0026,
            Self::TLS_KRB5_EXPORT_WITH_RC2_CBC_40_SHA => 0x0027,
            Self::TLS_KRB5_EXPORT_WITH_RC4_40_SHA => 0x0028,
            Self::TLS_KRB5_EXPORT_WITH_DES_CBC_40_MD5 => 0x0029,
            Self::TLS_KRB5_EXPORT_WITH_RC2_CBC_40_MD5 => 0x002a,
            Self::TLS_KRB5_EXPORT_WITH_RC4_40_MD5 => 0x002b,
            Self::TLS_PSK_WITH_NULL_SHA => 0x002c,
            Self::TLS_DHE_PSK_WITH_NULL_SHA => 0x002d,
            Self::TLS_RSA_PSK_WITH_NULL_SHA => 0x002e,
            Self::TLS_RSA_WITH_AES_128_CBC_SHA => 0x002f,
            Self::TLS_DH_DSS_WITH_AES_128_CBC_SHA => 0x0030,
            Self::TLS_DH_RSA_WITH_AES_128_CBC_SHA => 0x0031,
            Self::TLS_DHE_DSS_WITH_AES_128_CBC_SHA => 0x0032,
            Self::TLS_DHE_RSA_WITH_AES_128_CBC_SHA => 0x0033,
            Self::TLS_DH_anon_WITH_AES_128_CBC_SHA => 0x0034,
            Self::TLS_RSA_WITH_AES_256_CBC_SHA => 0x0035,
            Self::TLS_DH_DSS_WITH_AES_256_CBC_SHA => 0x0036,
            Self::TLS_DH_RSA_WITH_AES_256_CBC_SHA => 0x0037,
            Self::TLS_DHE_DSS_WITH_AES_256_CBC_SHA => 0x0038,
            Self::TLS_DHE_RSA_WITH_AES_256_CBC_SHA => 0x0039,
            Self::TLS_DH_anon_WITH_AES_256_CBC_SHA => 0x003a,
            Self::TLS_RSA_WITH_NULL_SHA256 => 0x003b,
            Self::TLS_RSA_WITH_AES_128_CBC_SHA256 => 0x003c,
            Self::TLS_RSA_WITH_AES_256_CBC_SHA256 => 0x003d,
            Self::TLS_DH_DSS_WITH_AES_128_CBC_SHA256 => 0x003e,
            Self::TLS_DH_RSA_WITH_AES_128_CBC_SHA256 => 0x003f,
            Self::TLS_DHE_DSS_WITH_AES_128_CBC_SHA256 => 0x0040,
            Self::TLS_RSA_WITH_CAMELLIA_128_CBC_SHA => 0x0041,
            Self::TLS_DH_DSS_WITH_CAMELLIA_128_CBC_SHA => 0x0042,
            Self::TLS_DH_RSA_WITH_CAMELLIA_128_CBC_SHA => 0x0043,
            Self::TLS_DHE_DSS_WITH_CAMELLIA_128_CBC_SHA => 0x0044,
            Self::TLS_DHE_RSA_WITH_CAMELLIA_128_CBC_SHA => 0x0045,
            Self::TLS_DH_anon_WITH_CAMELLIA_128_CBC_SHA => 0x0046,
            Self::TLS_ECDH_ECDSA_WITH_NULL_SHA_draft => 0x0047,
            Self::TLS_ECDH_ECDSA_WITH_RC4_128_SHA_draft => 0x0048,
            Self::TLS_ECDH_ECDSA_WITH_DES_CBC_SHA_draft => 0x0049,
            Self::TLS_ECDH_ECDSA_WITH_3DES_EDE_CBC_SHA_draft => 0x004a,
            Self::TLS_ECDH_ECDSA_WITH_AES_128_CBC_SHA_draft => 0x004b,
            Self::TLS_ECDH_ECDSA_WITH_AES_256_CBC_SHA_draft => 0x004c,
            Self::TLS_ECDH_ECNRA_WITH_DES_CBC_SHA_draft => 0x004d,
            Self::TLS_ECDH_ECNRA_WITH_3DES_EDE_CBC_SHA_draft => 0x004e,
            Self::TLS_ECMQV_ECDSA_NULL_SHA_draft => 0x004f,
            Self::TLS_ECMQV_ECDSA_WITH_RC4_128_SHA_draft => 0x0050,
            Self::TLS_ECMQV_ECDSA_WITH_DES_CBC_SHA_draft => 0x0051,
            Self::TLS_ECMQV_ECDSA_WITH_3DES_EDE_CBC_SHA_draft => 0x0052,
            Self::TLS_ECMQV_ECNRA_NULL_SHA_draft => 0x0053,
            Self::TLS_ECMQV_ECNRA_WITH_RC4_128_SHA_draft => 0x0054,
            Self::TLS_ECMQV_ECNRA_WITH_DES_CBC_SHA_draft => 0x0055,
            Self::TLS_ECMQV_ECNRA_WITH_3DES_EDE_CBC_SHA_draft => 0x0056,
            Self::TLS_ECDH_anon_NULL_WITH_SHA_draft => 0x0057,
            Self::TLS_ECDH_anon_WITH_RC4_128_SHA_draft => 0x0058,
            Self::TLS_ECDH_anon_WITH_DES_CBC_SHA_draft => 0x0059,
            Self::TLS_ECDH_anon_WITH_3DES_EDE_CBC_SHA_draft => 0x005a,
            Self::TLS_ECDH_anon_EXPORT_WITH_DES40_CBC_SHA_draft => 0x005b,
            Self::TLS_ECDH_anon_EXPORT_WITH_RC4_40_SHA_draft => 0x005c,
            Self::TLS_RSA_EXPORT1024_WITH_RC4_56_MD5 => 0x0060,
            Self::TLS_RSA_EXPORT1024_WITH_RC2_CBC_56_MD5 => 0x0061,
            Self::TLS_RSA_EXPORT1024_WITH_DES_CBC_SHA => 0x0062,
            Self::TLS_DHE_DSS_EXPORT1024_WITH_DES_CBC_SHA => 0x0063,
            Self::TLS_RSA_EXPORT1024_WITH_RC4_56_SHA => 0x0064,
            Self::TLS_DHE_DSS_EXPORT1024_WITH_RC4_56_SHA => 0x0065,
            Self::TLS_DHE_DSS_WITH_RC4_128_SHA => 0x0066,
            Self::TLS_DHE_RSA_WITH_AES_128_CBC_SHA256 => 0x0067,
            Self::TLS_DH_DSS_WITH_AES_256_CBC_SHA256 => 0x0068,
            Self::TLS_DH_RSA_WITH_AES_256_CBC_SHA256 => 0x0069,
            Self::TLS_DHE_DSS_WITH_AES_256_CBC_SHA256 => 0x006a,
            Self::TLS_DHE_RSA_WITH_AES_256_CBC_SHA256 => 0x006b,
            Self::TLS_DH_anon_WITH_AES_128_CBC_SHA256 => 0x006c,
            Self::TLS_DH_anon_WITH_AES_256_CBC_SHA256 => 0x006d,
            Self::TLS_DHE_DSS_WITH_3DES_EDE_CBC_RMD => 0x0072,
            Self::TLS_DHE_DSS_WITH_AES_128_CBC_RMD => 0x0073,
            Self::TLS_DHE_DSS_WITH_AES_256_CBC_RMD => 0x0074,
            Self::TLS_DHE_RSA_WITH_3DES_EDE_CBC_RMD => 0x0077,
            Self::TLS_DHE_RSA_WITH_AES_128_CBC_RMD => 0x0078,
            Self::TLS_DHE_RSA_WITH_AES_256_CBC_RMD => 0x0079,
            Self::TLS_RSA_WITH_3DES_EDE_CBC_RMD => 0x007c,
            Self::TLS_RSA_WITH_AES_128_CBC_RMD => 0x007d,
            Self::TLS_RSA_WITH_AES_256_CBC_RMD => 0x007e,
            Self::TLS_GOSTR341094_WITH_28147_CNT_IMIT => 0x0080,
            Self::TLS_GOSTR341001_WITH_28147_CNT_IMIT => 0x0081,
            Self::TLS_GOSTR341094_WITH_NULL_GOSTR3411 => 0x0082,
            Self::TLS_GOSTR341001_WITH_NULL_GOSTR3411 => 0x0083,
            Self::TLS_RSA_WITH_CAMELLIA_256_CBC_SHA => 0x0084,
            Self::TLS_DH_DSS_WITH_CAMELLIA_256_CBC_SHA => 0x0085,
            Self::TLS_DH_RSA_WITH_CAMELLIA_256_CBC_SHA => 0x0086,
            Self::TLS_DHE_DSS_WITH_CAMELLIA_256_CBC_SHA => 0x0087,
            Self::TLS_DHE_RSA_WITH_CAMELLIA_256_CBC_SHA => 0x0088,
            Self::TLS_DH_anon_WITH_CAMELLIA_256_CBC_SHA => 0x0089,
            Self::TLS_PSK_WITH_RC4_128_SHA => 0x008a,
            Self::TLS_PSK_WITH_3DES_EDE_CBC_SHA => 0x008b,
            Self::TLS_PSK_WITH_AES_128_CBC_SHA => 0x008c,
            Self::TLS_PSK_WITH_AES_256_CBC_SHA => 0x008d,
            Self::TLS_DHE_PSK_WITH_RC4_128_SHA => 0x008e,
            Self::TLS_DHE_PSK_WITH_3DES_EDE_CBC_SHA => 0x008f,
            Self::TLS_DHE_PSK_WITH_AES_128_CBC_SHA => 0x0090,
            Self::TLS_DHE_PSK_WITH_AES_256_CBC_SHA => 0x0091,
            Self::TLS_RSA_PSK_WITH_RC4_128_SHA => 0x0092,
            Self::TLS_RSA_PSK_WITH_3DES_EDE_CBC_SHA => 0x0093,
            Self::TLS_RSA_PSK_WITH_AES_128_CBC_SHA => 0x0094,
            Self::TLS_RSA_PSK_WITH_AES_256_CBC_SHA => 0x0095,
            Self::TLS_RSA_WITH_SEED_CBC_SHA => 0x0096,
            Self::TLS_DH_DSS_WITH_SEED_CBC_SHA => 0x0097,
            Self::TLS_DH_RSA_WITH_SEED_CBC_SHA => 0x0098,
            Self::TLS_DHE_DSS_WITH_SEED_CBC_SHA => 0x0099,
            Self::TLS_DHE_RSA_WITH_SEED_CBC_SHA => 0x009a,
            Self::TLS_DH_anon_WITH_SEED_CBC_SHA => 0x009b,
            Self::TLS_RSA_WITH_AES_128_GCM_SHA256 => 0x009c,
            Self::TLS_RSA_WITH_AES_256_GCM_SHA384 => 0x009d,
            Self::TLS_DHE_RSA_WITH_AES_128_GCM_SHA256 => 0x009e,
            Self::TLS_DHE_RSA_WITH_AES_256_GCM_SHA384 => 0x009f,
            Self::TLS_DH_RSA_WITH_AES_128_GCM_SHA256 => 0x00a0,
            Self::TLS_DH_RSA_WITH_AES_256_GCM_SHA384 => 0x00a1,
            Self::TLS_DHE_DSS_WITH_AES_128_GCM_SHA256 => 0x00a2,
            Self::TLS_DHE_DSS_WITH_AES_256_GCM_SHA384 => 0x00a3,
            Self::TLS_DH_DSS_WITH_AES_128_GCM_SHA256 => 0x00a4,
            Self::TLS_DH_DSS_WITH_AES_256_GCM_SHA384 => 0x00a5,
            Self::TLS_DH_anon_WITH_AES_128_GCM_SHA256 => 0x00a6,
            Self::TLS_DH_anon_WITH_AES_256_GCM_SHA384 => 0x00a7,
            Self::TLS_DHE_PSK_WITH_AES_128_GCM_SHA256 => 0x00aa,
            Self::TLS_DHE_PSK_WITH_AES_256_GCM_SHA384 => 0x00ab,
            Self::TLS_RSA_PSK_WITH_AES_128_GCM_SHA256 => 0x00ac,
            Self::TLS_RSA_PSK_WITH_AES_256_GCM_SHA384 => 0x00ad,
            Self::TLS_PSK_WITH_AES_128_CBC_SHA256 => 0x00ae,
            Self::TLS_PSK_WITH_AES_256_CBC_SHA384 => 0x00af,
            Self::TLS_PSK_WITH_NULL_SHA256 => 0x00b0,
            Self::TLS_PSK_WITH_NULL_SHA384 => 0x00b1,
            Self::TLS_DHE_PSK_WITH_AES_128_CBC_SHA256 => 0x00b2,
            Self::TLS_DHE_PSK_WITH_AES_256_CBC_SHA384 => 0x00b3,
            Self::TLS_DHE_PSK_WITH_NULL_SHA256 => 0x00b4,
            Self::TLS_DHE_PSK_WITH_NULL_SHA384 => 0x00b5,
            Self::TLS_RSA_PSK_WITH_AES_128_CBC_SHA256 => 0x00b6,
            Self::TLS_RSA_PSK_WITH_AES_256_CBC_SHA384 => 0x00b7,
            Self::TLS_RSA_PSK_WITH_NULL_SHA256 => 0x00b8,
            Self::TLS_RSA_PSK_WITH_NULL_SHA384 => 0x00b9,
            Self::TLS_RSA_WITH_CAMELLIA_128_CBC_SHA256 => 0x00ba,
            Self::TLS_DH_DSS_WITH_CAMELLIA_128_CBC_SHA256 => 0x00bb,
            Self::TLS_DH_RSA_WITH_CAMELLIA_128_CBC_SHA256 => 0x00bc,
            Self::TLS_DHE_DSS_WITH_CAMELLIA_128_CBC_SHA256 => 0x00bd,
            Self::TLS_DHE_RSA_WITH_CAMELLIA_128_CBC_SHA256 => 0x00be,
            Self::TLS_DH_anon_WITH_CAMELLIA_128_CBC_SHA256 => 0x00bf,
            Self::TLS_RSA_WITH_CAMELLIA_256_CBC_SHA256 => 0x00c0,
            Self::TLS_DH_DSS_WITH_CAMELLIA_256_CBC_SHA256 => 0x00c1,
            Self::TLS_DH_RSA_WITH_CAMELLIA_256_CBC_SHA256 => 0x00c2,
            Self::TLS_DHE_DSS_WITH_CAMELLIA_256_CBC_SHA256 => 0x00c3,
            Self::TLS_DHE_RSA_WITH_CAMELLIA_256_CBC_SHA256 => 0x00c4,
            Self::TLS_DH_anon_WITH_CAMELLIA_256_CBC_SHA256 => 0x00c5,
            Self::TLS_ECDH_ECDSA_WITH_NULL_SHA => 0xc001,
            Self::TLS_ECDH_ECDSA_WITH_RC4_128_SHA => 0xc002,
            Self::TLS_ECDH_ECDSA_WITH_3DES_EDE_CBC_SHA => 0xc003,
            Self::TLS_ECDH_ECDSA_WITH_AES_128_CBC_SHA => 0xc004,
            Self::TLS_ECDH_ECDSA_WITH_AES_256_CBC_SHA => 0xc005,
            Self::TLS_ECDHE_ECDSA_WITH_NULL_SHA => 0xc006,
            Self::TLS_ECDHE_ECDSA_WITH_RC4_128_SHA => 0xc007,
            Self::TLS_ECDHE_ECDSA_WITH_3DES_EDE_CBC_SHA => 0xc008,
            Self::TLS_ECDH_RSA_WITH_NULL_SHA => 0xc00b,
            Self::TLS_ECDH_RSA_WITH_RC4_128_SHA => 0xc00c,
            Self::TLS_ECDH_RSA_WITH_3DES_EDE_CBC_SHA => 0xc00d,
            Self::TLS_ECDH_RSA_WITH_AES_128_CBC_SHA => 0xc00e,
            Self::TLS_ECDH_RSA_WITH_AES_256_CBC_SHA => 0xc00f,
            Self::TLS_ECDHE_RSA_WITH_NULL_SHA => 0xc010,
            Self::TLS_ECDHE_RSA_WITH_RC4_128_SHA => 0xc011,
            Self::TLS_ECDHE_RSA_WITH_3DES_EDE_CBC_SHA => 0xc012,
            Self::TLS_ECDH_anon_WITH_NULL_SHA => 0xc015,
            Self::TLS_ECDH_anon_WITH_RC4_128_SHA => 0xc016,
            Self::TLS_ECDH_anon_WITH_3DES_EDE_CBC_SHA => 0xc017,
            Self::TLS_ECDH_anon_WITH_AES_128_CBC_SHA => 0xc018,
            Self::TLS_ECDH_anon_WITH_AES_256_CBC_SHA => 0xc019,
            Self::TLS_SRP_SHA_WITH_3DES_EDE_CBC_SHA => 0xc01a,
            Self::TLS_SRP_SHA_RSA_WITH_3DES_EDE_CBC_SHA => 0xc01b,
            Self::TLS_SRP_SHA_DSS_WITH_3DES_EDE_CBC_SHA => 0xc01c,
            Self::TLS_SRP_SHA_WITH_AES_128_CBC_SHA => 0xc01d,
            Self::TLS_SRP_SHA_RSA_WITH_AES_128_CBC_SHA => 0xc01e,
            Self::TLS_SRP_SHA_DSS_WITH_AES_128_CBC_SHA => 0xc01f,
            Self::TLS_SRP_SHA_WITH_AES_256_CBC_SHA => 0xc020,
            Self::TLS_SRP_SHA_RSA_WITH_AES_256_CBC_SHA => 0xc021,
            Self::TLS_SRP_SHA_DSS_WITH_AES_256_CBC_SHA => 0xc022,
            Self::TLS_ECDH_ECDSA_WITH_AES_128_CBC_SHA256 => 0xc025,
            Self::TLS_ECDH_ECDSA_WITH_AES_256_CBC_SHA384 => 0xc026,
            Self::TLS_ECDH_RSA_WITH_AES_128_CBC_SHA256 => 0xc029,
            Self::TLS_ECDH_RSA_WITH_AES_256_CBC_SHA384 => 0xc02a,
            Self::TLS_ECDH_ECDSA_WITH_AES_128_GCM_SHA256 => 0xc02d,
            Self::TLS_ECDH_ECDSA_WITH_AES_256_GCM_SHA384 => 0xc02e,
            Self::TLS_ECDH_RSA_WITH_AES_128_GCM_SHA256 => 0xc031,
            Self::TLS_ECDH_RSA_WITH_AES_256_GCM_SHA384 => 0xc032,
            Self::TLS_ECDHE_PSK_WITH_RC4_128_SHA => 0xc033,
            Self::TLS_ECDHE_PSK_WITH_3DES_EDE_CBC_SHA => 0xc034,
            Self::TLS_ECDHE_PSK_WITH_AES_128_CBC_SHA => 0xc035,
            Self::TLS_ECDHE_PSK_WITH_AES_256_CBC_SHA => 0xc036,
            Self::TLS_ECDHE_PSK_WITH_AES_128_CBC_SHA256 => 0xc037,
            Self::TLS_ECDHE_PSK_WITH_AES_256_CBC_SHA384 => 0xc038,
            Self::TLS_ECDHE_PSK_WITH_NULL_SHA => 0xc039,
            Self::TLS_ECDHE_PSK_WITH_NULL_SHA256 => 0xc03a,
            Self::TLS_ECDHE_PSK_WITH_NULL_SHA384 => 0xc03b,
            Self::TLS_RSA_WITH_ARIA_128_CBC_SHA256 => 0xc03c,
            Self::TLS_RSA_WITH_ARIA_256_CBC_SHA384 => 0xc03d,
            Self::TLS_DH_DSS_WITH_ARIA_128_CBC_SHA256 => 0xc03e,
            Self::TLS_DH_DSS_WITH_ARIA_256_CBC_SHA384 => 0xc03f,
            Self::TLS_DH_RSA_WITH_ARIA_128_CBC_SHA256 => 0xc040,
            Self::TLS_DH_RSA_WITH_ARIA_256_CBC_SHA384 => 0xc041,
            Self::TLS_DHE_DSS_WITH_ARIA_128_CBC_SHA256 => 0xc042,
            Self::TLS_DHE_DSS_WITH_ARIA_256_CBC_SHA384 => 0xc043,
            Self::TLS_DHE_RSA_WITH_ARIA_128_CBC_SHA256 => 0xc044,
            Self::TLS_DHE_RSA_WITH_ARIA_256_CBC_SHA384 => 0xc045,
            Self::TLS_DH_anon_WITH_ARIA_128_CBC_SHA256 => 0xc046,
            Self::TLS_DH_anon_WITH_ARIA_256_CBC_SHA384 => 0xc047,
            Self::TLS_ECDHE_ECDSA_WITH_ARIA_128_CBC_SHA256 => 0xc048,
            Self::TLS_ECDHE_ECDSA_WITH_ARIA_256_CBC_SHA384 => 0xc049,
            Self::TLS_ECDH_ECDSA_WITH_ARIA_128_CBC_SHA256 => 0xc04a,
            Self::TLS_ECDH_ECDSA_WITH_ARIA_256_CBC_SHA384 => 0xc04b,
            Self::TLS_ECDHE_RSA_WITH_ARIA_128_CBC_SHA256 => 0xc04c,
            Self::TLS_ECDHE_RSA_WITH_ARIA_256_CBC_SHA384 => 0xc04d,
            Self::TLS_ECDH_RSA_WITH_ARIA_128_CBC_SHA256 => 0xc04e,
            Self::TLS_ECDH_RSA_WITH_ARIA_256_CBC_SHA384 => 0xc04f,
            Self::TLS_RSA_WITH_ARIA_128_GCM_SHA256 => 0xc050,
            Self::TLS_RSA_WITH_ARIA_256_GCM_SHA384 => 0xc051,
            Self::TLS_DHE_RSA_WITH_ARIA_128_GCM_SHA256 => 0xc052,
            Self::TLS_DHE_RSA_WITH_ARIA_256_GCM_SHA384 => 0xc053,
            Self::TLS_DH_RSA_WITH_ARIA_128_GCM_SHA256 => 0xc054,
            Self::TLS_DH_RSA_WITH_ARIA_256_GCM_SHA384 => 0xc055,
            Self::TLS_DHE_DSS_WITH_ARIA_128_GCM_SHA256 => 0xc056,
            Self::TLS_DHE_DSS_WITH_ARIA_256_GCM_SHA384 => 0xc057,
            Self::TLS_DH_DSS_WITH_ARIA_128_GCM_SHA256 => 0xc058,
            Self::TLS_DH_DSS_WITH_ARIA_256_GCM_SHA384 => 0xc059,
            Self::TLS_DH_anon_WITH_ARIA_128_GCM_SHA256 => 0xc05a,
            Self::TLS_DH_anon_WITH_ARIA_256_GCM_SHA384 => 0xc05b,
            Self::TLS_ECDHE_ECDSA_WITH_ARIA_128_GCM_SHA256 => 0xc05c,
            Self::TLS_ECDHE_ECDSA_WITH_ARIA_256_GCM_SHA384 => 0xc05d,
            Self::TLS_ECDH_ECDSA_WITH_ARIA_128_GCM_SHA256 => 0xc05e,
            Self::TLS_ECDH_ECDSA_WITH_ARIA_256_GCM_SHA384 => 0xc05f,
            Self::TLS_ECDHE_RSA_WITH_ARIA_128_GCM_SHA256 => 0xc060,
            Self::TLS_ECDHE_RSA_WITH_ARIA_256_GCM_SHA384 => 0xc061,
            Self::TLS_ECDH_RSA_WITH_ARIA_128_GCM_SHA256 => 0xc062,
            Self::TLS_ECDH_RSA_WITH_ARIA_256_GCM_SHA384 => 0xc063,
            Self::TLS_PSK_WITH_ARIA_128_CBC_SHA256 => 0xc064,
            Self::TLS_PSK_WITH_ARIA_256_CBC_SHA384 => 0xc065,
            Self::TLS_DHE_PSK_WITH_ARIA_128_CBC_SHA256 => 0xc066,
            Self::TLS_DHE_PSK_WITH_ARIA_256_CBC_SHA384 => 0xc067,
            Self::TLS_RSA_PSK_WITH_ARIA_128_CBC_SHA256 => 0xc068,
            Self::TLS_RSA_PSK_WITH_ARIA_256_CBC_SHA384 => 0xc069,
            Self::TLS_PSK_WITH_ARIA_128_GCM_SHA256 => 0xc06a,
            Self::TLS_PSK_WITH_ARIA_256_GCM_SHA384 => 0xc06b,
            Self::TLS_DHE_PSK_WITH_ARIA_128_GCM_SHA256 => 0xc06c,
            Self::TLS_DHE_PSK_WITH_ARIA_256_GCM_SHA384 => 0xc06d,
            Self::TLS_RSA_PSK_WITH_ARIA_128_GCM_SHA256 => 0xc06e,
            Self::TLS_RSA_PSK_WITH_ARIA_256_GCM_SHA384 => 0xc06f,
            Self::TLS_ECDHE_PSK_WITH_ARIA_128_CBC_SHA256 => 0xc070,
            Self::TLS_ECDHE_PSK_WITH_ARIA_256_CBC_SHA384 => 0xc071,
            Self::TLS_ECDHE_ECDSA_WITH_CAMELLIA_128_CBC_SHA256 => 0xc072,
            Self::TLS_ECDHE_ECDSA_WITH_CAMELLIA_256_CBC_SHA384 => 0xc073,
            Self::TLS_ECDH_ECDSA_WITH_CAMELLIA_128_CBC_SHA256 => 0xc074,
            Self::TLS_ECDH_ECDSA_WITH_CAMELLIA_256_CBC_SHA384 => 0xc075,
            Self::TLS_ECDHE_RSA_WITH_CAMELLIA_128_CBC_SHA256 => 0xc076,
            Self::TLS_ECDHE_RSA_WITH_CAMELLIA_256_CBC_SHA384 => 0xc077,
            Self::TLS_ECDH_RSA_WITH_CAMELLIA_128_CBC_SHA256 => 0xc078,
            Self::TLS_ECDH_RSA_WITH_CAMELLIA_256_CBC_SHA384 => 0xc079,
            Self::TLS_RSA_WITH_CAMELLIA_128_GCM_SHA256 => 0xc07a,
            Self::TLS_RSA_WITH_CAMELLIA_256_GCM_SHA384 => 0xc07b,
            Self::TLS_DHE_RSA_WITH_CAMELLIA_128_GCM_SHA256 => 0xc07c,
            Self::TLS_DHE_RSA_WITH_CAMELLIA_256_GCM_SHA384 => 0xc07d,
            Self::TLS_DH_RSA_WITH_CAMELLIA_128_GCM_SHA256 => 0xc07e,
            Self::TLS_DH_RSA_WITH_CAMELLIA_256_GCM_SHA384 => 0xc07f,
            Self::TLS_DHE_DSS_WITH_CAMELLIA_128_GCM_SHA256 => 0xc080,
            Self::TLS_DHE_DSS_WITH_CAMELLIA_256_GCM_SHA384 => 0xc081,
            Self::TLS_DH_DSS_WITH_CAMELLIA_128_GCM_SHA256 => 0xc082,
            Self::TLS_DH_DSS_WITH_CAMELLIA_256_GCM_SHA384 => 0xc083,
            Self::TLS_DH_anon_WITH_CAMELLIA_128_GCM_SHA256 => 0xc084,
            Self::TLS_DH_anon_WITH_CAMELLIA_256_GCM_SHA384 => 0xc085,
            Self::TLS_ECDHE_ECDSA_WITH_CAMELLIA_128_GCM_SHA256 => 0xc086,
            Self::TLS_ECDHE_ECDSA_WITH_CAMELLIA_256_GCM_SHA384 => 0xc087,
            Self::TLS_ECDH_ECDSA_WITH_CAMELLIA_128_GCM_SHA256 => 0xc088,
            Self::TLS_ECDH_ECDSA_WITH_CAMELLIA_256_GCM_SHA384 => 0xc089,
            Self::TLS_ECDHE_RSA_WITH_CAMELLIA_128_GCM_SHA256 => 0xc08a,
            Self::TLS_ECDHE_RSA_WITH_CAMELLIA_256_GCM_SHA384 => 0xc08b,
            Self::TLS_ECDH_RSA_WITH_CAMELLIA_128_GCM_SHA256 => 0xc08c,
            Self::TLS_ECDH_RSA_WITH_CAMELLIA_256_GCM_SHA384 => 0xc08d,
            Self::TLS_PSK_WITH_CAMELLIA_128_GCM_SHA256 => 0xc08e,
            Self::TLS_PSK_WITH_CAMELLIA_256_GCM_SHA384 => 0xc08f,
            Self::TLS_DHE_PSK_WITH_CAMELLIA_128_GCM_SHA256 => 0xc090,
            Self::TLS_DHE_PSK_WITH_CAMELLIA_256_GCM_SHA384 => 0xc091,
            Self::TLS_RSA_PSK_WITH_CAMELLIA_128_GCM_SHA256 => 0xc092,
            Self::TLS_RSA_PSK_WITH_CAMELLIA_256_GCM_SHA384 => 0xc093,
            Self::TLS_PSK_WITH_CAMELLIA_128_CBC_SHA256 => 0xc094,
            Self::TLS_PSK_WITH_CAMELLIA_256_CBC_SHA384 => 0xc095,
            Self::TLS_DHE_PSK_WITH_CAMELLIA_128_CBC_SHA256 => 0xc096,
            Self::TLS_DHE_PSK_WITH_CAMELLIA_256_CBC_SHA384 => 0xc097,
            Self::TLS_RSA_PSK_WITH_CAMELLIA_128_CBC_SHA256 => 0xc098,
            Self::TLS_RSA_PSK_WITH_CAMELLIA_256_CBC_SHA384 => 0xc099,
            Self::TLS_ECDHE_PSK_WITH_CAMELLIA_128_CBC_SHA256 => 0xc09a,
            Self::TLS_ECDHE_PSK_WITH_CAMELLIA_256_CBC_SHA384 => 0xc09b,
            Self::TLS_RSA_WITH_AES_128_CCM => 0xc09c,
            Self::TLS_RSA_WITH_AES_256_CCM => 0xc09d,
            Self::TLS_DHE_RSA_WITH_AES_128_CCM => 0xc09e,
            Self::TLS_DHE_RSA_WITH_AES_256_CCM => 0xc09f,
            Self::TLS_RSA_WITH_AES_128_CCM_8 => 0xc0a0,
            Self::TLS_RSA_WITH_AES_256_CCM_8 => 0xc0a1,
            Self::TLS_DHE_RSA_WITH_AES_128_CCM_8 => 0xc0a2,
            Self::TLS_DHE_RSA_WITH_AES_256_CCM_8 => 0xc0a3,
            Self::TLS_PSK_WITH_AES_128_CCM => 0xc0a4,
            Self::TLS_PSK_WITH_AES_256_CCM => 0xc0a5,
            Self::TLS_DHE_PSK_WITH_AES_128_CCM => 0xc0a6,
            Self::TLS_DHE_PSK_WITH_AES_256_CCM => 0xc0a7,
            Self::TLS_PSK_WITH_AES_128_CCM_8 => 0xc0a8,
            Self::TLS_PSK_WITH_AES_256_CCM_8 => 0xc0a9,
            Self::TLS_PSK_DHE_WITH_AES_128_CCM_8 => 0xc0aa,
            Self::TLS_PSK_DHE_WITH_AES_256_CCM_8 => 0xc0ab,
            Self::TLS_ECDHE_ECDSA_WITH_AES_128_CCM => 0xc0ac,
            Self::TLS_ECDHE_ECDSA_WITH_AES_256_CCM => 0xc0ad,
            Self::TLS_ECDHE_ECDSA_WITH_AES_128_CCM_8 => 0xc0ae,
            Self::TLS_ECDHE_ECDSA_WITH_AES_256_CCM_8 => 0xc0af,
            Self::TLS_DHE_RSA_WITH_CHACHA20_POLY1305_SHA256 => 0xccaa,
            Self::TLS_PSK_WITH_CHACHA20_POLY1305_SHA256 => 0xccab,
            Self::TLS_ECDHE_PSK_WITH_CHACHA20_POLY1305_SHA256 => 0xccac,
            Self::TLS_DHE_PSK_WITH_CHACHA20_POLY1305_SHA256 => 0xccad,
            Self::TLS_RSA_PSK_WITH_CHACHA20_POLY1305_SHA256 => 0xccae,
            Self::SSL_RSA_FIPS_WITH_DES_CBC_SHA => 0xfefe,
            Self::SSL_RSA_FIPS_WITH_3DES_EDE_CBC_SHA => 0xfeff,
            Self::Unknown(code) => code,
        }
    }

    fn from_code(code: u16) -> (v: Self) {
        match code {
            0x0000 => Self::TLS_NULL_WITH_NULL_NULL,
            0x00a8 => Self::TLS_PSK_WITH_AES_128_GCM_SHA256,
            0x00a9 => Self::TLS_PSK_WITH_AES_256_GCM_SHA384,
            0x00ff => Self::TLS_EMPTY_RENEGOTIATION_INFO_SCSV,
            0x1301 => Self::TLS13_AES_128_GCM_SHA256,
            0x1302 => Self::TLS13_AES_256_GCM_SHA384,
            0x1303 => Self::TLS13_CHACHA20_POLY1305_SHA256,
            0x1304 => Self::TLS13_AES_128_CCM_SHA256,
            0x1305 => Self::TLS13_AES_128_CCM_8_SHA256,
            0xc009 => Self::TLS_ECDHE_ECDSA_WITH_AES_128_CBC_SHA,
            0xc00a => Self::TLS_ECDHE_ECDSA_WITH_AES_256_CBC_SHA,
            0xc013 => Self::TLS_ECDHE_RSA_WITH_AES_128_CBC_SHA,
            0xc014 => Self::TLS_ECDHE_RSA_WITH_AES_256_CBC_SHA,
            0xc023 => Self::TLS_ECDHE_ECDSA_WITH_AES_128_CBC_SHA256,
            0xc024 => Self::TLS_ECDHE_ECDSA_WITH_AES_256_CBC_SHA384,
            0xc027 => Self::TLS_ECDHE_RSA_WITH_AES_128_CBC_SHA256,
            0xc028 => Self::TLS_ECDHE_RSA_WITH_AES_256_CBC_SHA384,
            0xc02b => Self::TLS_ECDHE_ECDSA_WITH_AES_128_GCM_SHA256,
            0xc02c => Self::TLS_ECDHE_ECDSA_WITH_AES_256_GCM_SHA384,
            0xc02f => Self::TLS_ECDHE_RSA_WITH_AES_128_GCM_SHA256,
            0xc030 => Self::TLS_ECDHE_RSA_WITH_AES_256_GCM_SHA384,
            0xcca8 => Self::TLS_ECDHE_RSA_WITH_CHACHA20_POLY1305_SHA256,
            0xcca9 => Self::TLS_ECDHE_ECDSA_WITH_CHACHA20_POLY1305_SHA256,
            0x0001 => Self::TLS_RSA_WITH_NULL_MD5,
            0x0002 => Self::TLS_RSA_WITH_NULL_SHA,
            0x0003 => Self::TLS_RSA_EXPORT_WITH_RC4_40_MD5,
            0x0004 => Self::TLS_RSA_WITH_RC4_128_MD5,
            0x0005 => Self::TLS_RSA_WITH_RC4_128_SHA,
            0x0006 => Self::TLS_RSA_EXPORT_WITH_RC2_CBC_40_MD5,
            0x0007 => Self::TLS_RSA_WITH_IDEA_CBC_SHA,
            0x0008 => Self::TLS_RSA_EXPORT_WITH_DES40_CBC_SHA,
            0x0009 => Self::TLS_RSA_WITH_DES_CBC_SHA,
            0x000a => Self::TLS_RSA_WITH_3DES_EDE_CBC_SHA,
            0x000b => Self::TLS_DH_DSS_EXPORT_WITH_DES40_CBC_SHA,
            0x000c => Self::TLS_DH_DSS_WITH_DES_CBC_SHA,
            0x000d => Self::TLS_DH_DSS_WITH_3DES_EDE_CBC_SHA,
            0x000e => Self::TLS_DH_RSA_EXPORT_WITH_DES40_CBC_SHA,
            0x000f => Self::TLS_DH_RSA_WITH_DES_CBC_SHA,
            0x0010 => Self::TLS_DH_RSA_WITH_3DES_EDE_CBC_SHA,
            0x0011 => Self::TLS_DHE_DSS_EXPORT_WITH_DES40_CBC_SHA,
            0x0012 => Self::TLS_DHE_DSS_WITH_DES_CBC_SHA,
            0x0013 => Self::TLS_DHE_DSS_WITH_3DES_EDE_CBC_SHA,
            0x0014 => Self::TLS_DHE_RSA_EXPORT_WITH_DES40_CBC_SHA,
            0x0015 => Self::TLS_DHE_RSA_WITH_DES_CBC_SHA,
            0x0016 => Self::TLS_DHE_RSA_WITH_3DES_EDE_CBC_SHA,
            0x0017 => Self::TLS_DH_anon_EXPORT_WITH_RC4_40_MD5,
            0x0018 => Self::TLS_DH_anon_WITH_RC4_128_MD5,
            0x0019 => Self::TLS_DH_anon_EXPORT_WITH_DES40_CBC_SHA,
            0x001a => Self::TLS_DH_anon_WITH_DES_CBC_SHA,
            0x001b => Self::TLS_DH_anon_WITH_3DES_EDE_CBC_SHA,
            0x001c => Self::SSL_FORTEZZA_KEA_WITH_NULL_SHA,
            0x001d => Self::SSL_FORTEZZA_KEA_WITH_FORTEZZA_CBC_SHA,
            0x001e => Self::TLS_KRB5_WITH_DES_CBC_SHA_or_SSL_FORTEZZA_KEA_WITH_RC4_128_SHA,
            0x001f => Self::TLS_KRB5_WITH_3DES_EDE_CBC_SHA,
            0x0020 => Self::TLS_KRB5_WITH_RC4_128_SHA,
            0x0021 => Self::TLS_KRB5_WITH_IDEA_CBC_SHA,
            0x0022 => Self::TLS_KRB5_WITH_DES_CBC_MD5,
            0x0023 => Self::TLS_KRB5_WITH_3DES_EDE_CBC_MD5,
            0x0024 => Self::TLS_KRB5_WITH_RC4_128_MD5,
            0x0025 => Self::TLS_KRB5_WITH_IDEA_CBC_MD5,
            0x0026 => Self::TLS_KRB5_EXPORT_WITH_DES_CBC_40_SHA,
            0x0027 => Self::TLS_KRB5_EXPORT_WITH_RC2_CBC_40_SHA,
            0x0028 => Self::TLS_KRB5_EXPORT_WITH_RC4_40_SHA,
            0x0029 => Self::TLS_KRB5_EXPORT_WITH_DES_CBC_40_MD5,
            0x002a => Self::TLS_KRB5_EXPORT_WITH_RC2_CBC_40_MD5,
            0x002b => Self::TLS_KRB5_EXPORT_WITH_RC4_40_MD5,
            0x002c => Self::TLS_PSK_WITH_NULL_SHA,
            0x002d => Self::TLS_DHE_PSK_WITH_NULL_SHA,
            0x002e => Self::TLS_RSA_PSK_WITH_NULL_SHA,
            0x002f => Self::TLS_RSA_WITH_AES_128_CBC_SHA,
            0x0030 => Self::TLS_DH_DSS_WITH_AES_128_CBC_SHA,
            0x0031 => Self::TLS_DH_RSA_WITH_AES_128_CBC_SHA,
            0x0032 => Self::TLS_DHE_DSS_WITH_AES_128_CBC_SHA,
            0x0033 => Self::TLS_DHE_RSA_WITH_AES_128_CBC_SHA,
            0x0034 => Self::TLS_DH_anon_WITH_AES_128_CBC_SHA,
            0x0035 => Self::TLS_RSA_WITH_AES_256_CBC_SHA,
            0x0036 => Self::TLS_DH_DSS_WITH_AES_256_CBC_SHA,
            0x0037 => Self::TLS_DH_RSA_WITH_AES_256_CBC_SHA,
            0x0038 => Self::TLS_DHE_DSS_WITH_AES_256_CBC_SHA,
            0x0039 => Self::TLS_DHE_RSA_WITH_AES_256_CBC_SHA,
            0x003a => Self::TLS_DH_anon_WITH_AES_256_CBC_SHA,
            0x003b => Self::TLS_RSA_WITH_NULL_SHA256,
            0x003c => Self::TLS_RSA_WITH_AES_128_CBC_SHA256,
            0x003d => Self::TLS_RSA_WITH_AES_256_CBC_SHA256,
            0x003e => Self::TLS_DH_DSS_WITH_AES_128_CBC_SHA256,
            0x003f => Self::TLS_DH_RSA_WITH_AES_128_CBC_SHA256,
            0x0040 => Self::TLS_DHE_DSS_WITH_AES_128_CBC_SHA256,
            0x0041 => Self::TLS_RSA_WITH_CAMELLIA_128_CBC_SHA,
            0x0042 => Self::TLS_DH_DSS_WITH_CAMELLIA_128_CBC_SHA,
            0x0043 => Self::TLS_DH_RSA_WITH_CAMELLIA_128_CBC_SHA,
            0x0044 => Self::TLS_DHE_DSS_WITH_CAMELLIA_128_CBC_SHA,
            0x0045 => Self::TLS_DHE_RSA_WITH_CAMELLIA_128_CBC_SHA,
            0x0046 => Self::TLS_DH_anon_WITH_CAMELLIA_128_CBC_SHA,
            0x0047 => Self::TLS_ECDH_ECDSA_WITH_NULL_SHA_draft,
            0x0048 => Self::TLS_ECDH_ECDSA_WITH_RC4_128_SHA_draft,
            0x0049 => Self::TLS_ECDH_ECDSA_WITH_DES_CBC_SHA_draft,
            0x004a => Self::TLS_ECDH_ECDSA_WITH_3DES_EDE_CBC_SHA_draft,
            0x004b => Self::TLS_ECDH_ECDSA_WITH_AES_128_CBC_SHA_draft,
            0x004c => Self::TLS_ECDH_ECDSA_WITH_AES_256_CBC_SHA_draft,
            0x004d => Self::TLS_ECDH_ECNRA_WITH_DES_CBC_SHA_draft,
            0x004e => Self::TLS_ECDH_ECNRA_WITH_3DES_EDE_CBC_SHA_draft,
            0x004f => Self::TLS_ECMQV_ECDSA_NULL_SHA_draft,
            0x0050 => Self::TLS_ECMQV_ECDSA_WITH_RC4_128_SHA_draft,
            0x0051 => Self::TLS_ECMQV_ECDSA_WITH_DES_CBC_SHA_draft,
            0x0052 => Self::TLS_ECMQV_ECDSA_WITH_3DES_EDE_CBC_SHA_draft,
            0x0053 => Self::TLS_ECMQV_ECNRA_NULL_SHA_draft,
            0x0054 => Self::TLS_ECMQV_ECNRA_WITH_RC4_128_SHA_draft,
            0x0055 => Self::TLS_ECMQV_ECNRA_WITH_DES_CBC_SHA_draft,
            0x0056 => Self::TLS_ECMQV_ECNRA_WITH_3DES_EDE_CBC_SHA_draft,
            0x0057 => Self::TLS_ECDH_anon_NULL_WITH_SHA_draft,
            0x0058 => Self::TLS_ECDH_anon_WITH_RC4_128_SHA_draft,
            0x0059 => Self::TLS_ECDH_anon_WITH_DES_CBC_SHA_draft,
            0x005a => Self::TLS_ECDH_anon_WITH_3DES_EDE_CBC_SHA_draft,
            0x005b => Self::TLS_ECDH_anon_EXPORT_WITH_DES40_CBC_SHA_draft,
            0x005c => Self::TLS_ECDH_anon_EXPORT_WITH_RC4_40_SHA_draft,
            0x0060 => Self::TLS_RSA_EXPORT1024_WITH_RC4_56_MD5,
            0x0061 => Self::TLS_RSA_EXPORT1024_WITH_RC2_CBC_56_MD5,
            0x0062 => Self::TLS_RSA_EXPORT1024_WITH_DES_CBC_SHA,
            0x0063 => Self::TLS_DHE_DSS_EXPORT1024_WITH_DES_CBC_SHA,
            0x0064 => Self::TLS_RSA_EXPORT1024_WITH_RC4_56_SHA,
            0x0065 => Self::TLS_DHE_DSS_EXPORT1024_WITH_RC4_56_SHA,
            0x0066 => Self::TLS_DHE_DSS_WITH_RC4_128_SHA,
            0x0067 => Self::TLS_DHE_RSA_WITH_AES_128_CBC_SHA256,
            0x0068 => Self::TLS_DH_DSS_WITH_AES_256_CBC_SHA256,
            0x0069 => Self::TLS_DH_RSA_WITH_AES_256_CBC_SHA256,
            0x006a => Self::TLS_DHE_DSS_WITH_AES_256_CBC_SHA256,
            0x006b => Self::TLS_DHE_RSA_WITH_AES_256_CBC_SHA256,
            0x006c => Self::TLS_DH_anon_WITH_AES_128_CBC_SHA256,
            0x006d => Self::TLS_DH_anon_WITH_AES_256_CBC_SHA256,
            0x0072 => Self::TLS_DHE_DSS_WITH_3DES_EDE_CBC_RMD,
            0x0073 => Self::TLS_DHE_DSS_WITH_AES_128_CBC_RMD,
            0x0074 => Self::TLS_DHE_DSS_WITH_AES_256_CBC_RMD,
            0x0077 => Self::TLS_DHE_RSA_WITH_3DES_EDE_CBC_RMD,
            0x0078 => Self::TLS_DHE_RSA_WITH_AES_128_CBC_RMD,
            0x0079 => Self::TLS_DHE_RSA_WITH_AES_256_CBC_RMD,
            0x007c => Self::TLS_RSA_WITH_3DES_EDE_CBC_RMD,
            0x007d => Self::TLS_RSA_WITH_AES_128_CBC_RMD,
            0x007e => Self::TLS_RSA_WITH_AES_256_CBC_RMD,
            0x0080 => Self::TLS_GOSTR341094_WITH_28147_CNT_IMIT,
            0x0081 => Self::TLS_GOSTR341001_WITH_28147_CNT_IMIT,
            0x0082 => Self::TLS_GOSTR341094_WITH_NULL_GOSTR3411,
            0x0083 => Self::TLS_GOSTR341001_WITH_NULL_GOSTR3411,
            0x0084 => Self::TLS_RSA_WITH_CAMELLIA_256_CBC_SHA,
            0x0085 => Self::TLS_DH_DSS_WITH_CAMELLIA_256_CBC_SHA,
            0x0086 => Self::TLS_DH_RSA_WITH_CAMELLIA_256_CBC_SHA,
            0x0087 => Self::TLS_DHE_DSS_WITH_CAMELLIA_256_CBC_SHA,
            0x0088 => Self::TLS_DHE_RSA_WITH_CAMELLIA_256_CBC_SHA,
            0x0089 => Self::TLS_DH_anon_WITH_CAMELLIA_256_CBC_SHA,
            0x008a => Self::TLS_PSK_WITH_RC4_128_SHA,
            0x008b => Self::TLS_PSK_WITH_3DES_EDE_CBC_SHA,
            0x008c => Self::TLS_PSK_WITH_AES_128_CBC_SHA,
            0x008d => Self::TLS_PSK_WITH_AES_256_CBC_SHA,
            0x008e => Self::TLS_DHE_PSK_WITH_RC4_128_SHA,
            0x008f => Self::TLS_DHE_PSK_WITH_3DES_EDE_CBC_SHA,
            0x0090 => Self::TLS_DHE_PSK_WITH_AES_128_CBC_SHA,
            0x0091 => Self::TLS_DHE_PSK_WITH_AES_256_CBC_SHA,
            0x0092 => Self::TLS_RSA_PSK_WITH_RC4_128_SHA,
            0x0093 => Self::TLS_RSA_PSK_WITH_3DES_EDE_CBC_SHA,
            0x0094 => Self::TLS_RSA_PSK_WITH_AES_128_CBC_SHA,
            0x0095 => Self::TLS_RSA_PSK_WITH_AES_256_CBC_SHA,
            0x0096 => Self::TLS_RSA_WITH_SEED_CBC_SHA,
            0x0097 => Self::TLS_DH_DSS_WITH_SEED_CBC_SHA,
            0x0098 => Self::TLS_DH_RSA_WITH_SEED_CBC_SHA,
            0x0099 => Self::TLS_DHE_DSS_WITH_SEED_CBC_SHA,
            0x009a => Self::TLS_DHE_RSA_WITH_SEED_CBC_SHA,
            0x009b => Self::TLS_DH_anon_WITH_SEED_CBC_SHA,
            0x009c => Self::TLS_RSA_WITH_AES_128_GCM_SHA256,
            0x009d => Self::TLS_RSA_WITH_AES_256_GCM_SHA384,
            0x009e => Self::TLS_DHE_RSA_WITH_AES_128_GCM_SHA256,
            0x009f => Self::TLS_DHE_RSA_WITH_AES_256_GCM_SHA384,
            0x00a0 => Self::TLS_DH_RSA_WITH_AES_128_GCM_SHA256,
            0x00a1 => Self::TLS_DH_RSA_WITH_AES_256_GCM_SHA384,
            0x00a2 => Self::TLS_DHE_DSS_WITH_AES_128_GCM_SHA256,
            0x00a3 => Self::TLS_DHE_DSS_WITH_AES_256_GCM_SHA384,
            0x00a4 => Self::TLS_DH_DSS_WITH_AES_128_GCM_SHA256,
            0x00a5 => Self::TLS_DH_DSS_WITH_AES_256_GCM_SHA384,
            0x00a6 => Self::TLS_DH_anon_WITH_AES_128_GCM_SHA256,
            0x00a7 => Self::TLS_DH_anon_WITH_AES_256_GCM_SHA384,
            0x00aa => Self::TLS_DHE_PSK_WITH_AES_128_GCM_SHA256,
            0x00ab => Self::TLS_DHE_PSK_WITH_AES_256_GCM_SHA384,
            0x00ac => Self::TLS_RSA_PSK_WITH_AES_128_GCM_SHA256,
            0x00ad => Self::TLS_RSA_PSK_WITH_AES_256_GCM_SHA384,
            0x00ae => Self::TLS_PSK_WITH_AES_128_CBC_SHA256,
            0x00af => Self::TLS_PSK_WITH_AES_256_CBC_SHA384,
            0x00b0 => Self::TLS_PSK_WITH_NULL_SHA256,
            0x00b1 => Self::TLS_PSK_WITH_NULL_SHA384,
            0x00b2 => Self::TLS_DHE_PSK_WITH_AES_128_CBC_SHA256,
            0x00b3 => Self::TLS_DHE_PSK_WITH_AES_256_CBC_SHA384,
            0x00b4 => Self::TLS_DHE_PSK_WITH_NULL_SHA256,
            0x00b5 => Self::TLS_DHE_PSK_WITH_NULL_SHA384,
            0x00b6 => Self::TLS_RSA_PSK_WITH_AES_128_CBC_SHA256,
            0x00b7 => Self::TLS_RSA_PSK_WITH_AES_256_CBC_SHA384,
            0x00b8 => Self::TLS_RSA_PSK_WITH_NULL_SHA256,
            0x00b9 => Self::TLS_RSA_PSK_WITH_NULL_SHA384,
            0x00ba => Self::TLS_RSA_WITH_CAMELLIA_128_CBC_SHA256,
            0x00bb => Self::TLS_DH_DSS_WITH_CAMELLIA_128_CBC_SHA256,
            0x00bc => Self::TLS_DH_RSA_WITH_CAMELLIA_128_CBC_SHA256,
            0x00bd => Self::TLS_DHE_DSS_WITH_CAMELLIA_128_CBC_SHA256,
            0x00be => Self::TLS_DHE_RSA_WITH_CAMELLIA_128_CBC_SHA256,
            0x00bf => Self::TLS_DH_anon_WITH_CAMELLIA_128_CBC_SHA256,
            0x00c0 => Self::TLS_RSA_WITH_CAMELLIA_256_CBC_SHA256,
            0x00c1 => Self::TLS_DH_DSS_WITH_CAMELLIA_256_CBC_SHA256,
            0x00c2 => Self::TLS_DH_RSA_WITH_CAMELLIA_256_CBC_SHA256,
            0x00c3 => Self::TLS_DHE_DSS_WITH_CAMELLIA_256_CBC_SHA256,
            0x00c4 => Self::TLS_DHE_RSA_WITH_CAMELLIA_256_CBC_SHA256,
            0x00c5 => Self::TLS_DH_anon_WITH_CAMELLIA_256_CBC_SHA256,
            0xc001 => Self::TLS_ECDH_ECDSA_WITH_NULL_SHA,
            0xc002 => Self::TLS_ECDH_ECDSA_WITH_RC4_128_SHA,
            0xc003 => Self::TLS_ECDH_ECDSA_WITH_3DES_EDE_CBC_SHA,
            0xc004 => Self::TLS_ECDH_ECDSA_WITH_AES_128_CBC_SHA,
            0xc005 => Self::TLS_ECDH_ECDSA_WITH_AES_256_CBC_SHA,
            0xc006 => Self::TLS_ECDHE_ECDSA_WITH_NULL_SHA,
            0xc007 => Self::TLS_ECDHE_ECDSA_WITH_RC4_128_SHA,
            0xc008 => Self::TLS_ECDHE_ECDSA_WITH_3DES_EDE_CBC_SHA,
            0xc00b => Self::TLS_ECDH_RSA_WITH_NULL_SHA,
            0xc00c => Self::TLS_ECDH_RSA_WITH_RC4_128_SHA,
            0xc00d => Self::TLS_ECDH_RSA_WITH_3DES_EDE_CBC_SHA,
            0xc00e => Self::TLS_ECDH_RSA_WITH_AES_128_CBC_SHA,
            0xc00f => Self::TLS_ECDH_RSA_WITH_AES_256_CBC_SHA,
            0xc010 => Self::TLS_ECDHE_RSA_WITH_NULL_SHA,
            0xc011 => Self::TLS_ECDHE_RSA_WITH_RC4_128_SHA,
            0xc012 => Self::TLS_ECDHE_RSA_WITH_3DES_EDE_CBC_SHA,
            0xc015 => Self::TLS_ECDH_anon_WITH_NULL_SHA,
            0xc016 => Self::TLS_ECDH_anon_WITH_RC4_128_SHA,
            0xc017 => Self::TLS_ECDH_anon_WITH_3DES_EDE_CBC_SHA,
            0xc018 => Self::TLS_ECDH_anon_WITH_AES_128_CBC_SHA,
            0xc019 => Self::TLS_ECDH_anon_WITH_AES_256_CBC_SHA,
            0xc01a => Self::TLS_SRP_SHA_WITH_3DES_EDE_CBC_SHA,
            0xc01b => Self::TLS_SRP_SHA_RSA_WITH_3DES_EDE_CBC_SHA,
            0xc01c => Self::TLS_SRP_SHA_DSS_WITH_3DES_EDE_CBC_SHA,
            0xc01d => Self::TLS_SRP_SHA_WITH_AES_128_CBC_SHA,
            0xc01e => Self::TLS_SRP_SHA_RSA_WITH_AES_128_CBC_SHA,
            0xc01f => Self::TLS_SRP_SHA_DSS_WITH_AES_128_CBC_SHA,
            0xc020 => Self::TLS_SRP_SHA_WITH_AES_256_CBC_SHA,
            0xc021 => Self::TLS_SRP_SHA_RSA_WITH_AES_256_CBC_SHA,
            0xc022 => Self::TLS_SRP_SHA_DSS_WITH_AES_256_CBC_SHA,
            0xc025 => Self::TLS_ECDH_ECDSA_WITH_AES_128_CBC_SHA256,
            0xc026 => Self::TLS_ECDH_ECDSA_WITH_AES_256_CBC_SHA384,
            0xc029 => Self::TLS_ECDH_RSA_WITH_AES_128_CBC_SHA256,
            0xc02a => Self::TLS_ECDH_RSA_WITH_AES_256_CBC_SHA384,
            0xc02d => Self::TLS_ECDH_ECDSA_WITH_AES_128_GCM_SHA256,
            0xc02e => Self::TLS_ECDH_ECDSA_WITH_AES_256_GCM_SHA384,
            0xc031 => Self::TLS_ECDH_RSA_WITH_AES_128_GCM_SHA256,
            0xc032 => Self::TLS_ECDH_RSA_WITH_AES_256_GCM_SHA384,
            0xc033 => Self::TLS_ECDHE_PSK_WITH_RC4_128_SHA,
            0xc034 => Self::TLS_ECDHE_PSK_WITH_3DES_EDE_CBC_SHA,
            0xc035 => Self::TLS_ECDHE_PSK_WITH_AES_128_CBC_SHA,
            0xc036 => Self::TLS_ECDHE_PSK_WITH_AES_256_CBC_SHA,
            0xc037 => Self::TLS_ECDHE_PSK_WITH_AES_128_CBC_SHA256,
            0xc038 => Self::TLS_ECDHE_PSK_WITH_AES_256_CBC_SHA384,
            0xc039 => Self::TLS_ECDHE_PSK_WITH_NULL_SHA,
            0xc03a => Self::TLS_ECDHE_PSK_WITH_NULL_SHA256,
            0xc03b => Self::TLS_ECDHE_PSK_WITH_NULL_SHA384,
            0xc03c => Self::TLS_RSA_WITH_ARIA_128_CBC_SHA256,
            0xc03d => Self::TLS_RSA_WITH_ARIA_256_CBC_SHA384,
            0xc03e => Self::TLS_DH_DSS_WITH_ARIA_128_CBC_SHA256,
            0xc03f => Self::TLS_DH_DSS_WITH_ARIA_256_CBC_SHA384,
            0xc040 => Self::TLS_DH_RSA_WITH_ARIA_128_CBC_SHA256,
            0xc041 => Self::TLS_DH_RSA_WITH_ARIA_256_CBC_SHA384,
            0xc042 => Self::TLS_DHE_DSS_WITH_ARIA_128_CBC_SHA256,
            0xc043 => Self::TLS_DHE_DSS_WITH_ARIA_256_CBC_SHA384,
            0xc044 => Self::TLS_DHE_RSA_WITH_ARIA_128_CBC_SHA256,
            0xc045 => Self::TLS_DHE_RSA_WITH_ARIA_256_CBC_SHA384,
            0xc046 => Self::TLS_DH_anon_WITH_ARIA_128_CBC_SHA256,
            0xc047 => Self::TLS_DH_anon_WITH_ARIA_256_CBC_SHA384,
            0xc048 => Self::TLS_ECDHE_ECDSA_WITH_ARIA_128_CBC_SHA256,
            0xc049 => Self::TLS_ECDHE_ECDSA_WITH_ARIA_256_CBC_SHA384,
            0xc04a => Self::TLS_ECDH_ECDSA_WITH_ARIA_128_CBC_SHA256,
            0xc04b => Self::TLS_ECDH_ECDSA_WITH_ARIA_256_CBC_SHA384,
            0xc04c => Self::TLS_ECDHE_RSA_WITH_ARIA_128_CBC_SHA256,
            0xc04d => Self::TLS_ECDHE_RSA_WITH_ARIA_256_CBC_SHA384,
            0xc04e => Self::TLS_ECDH_RSA_WITH_ARIA_128_CBC_SHA256,
            0xc04f => Self::TLS_ECDH_RSA_WITH_ARIA_256_CBC_SHA384,
            0xc050 => Self::TLS_RSA_WITH_ARIA_128_GCM_SHA256,
            0xc051 => Self::TLS_RSA_WITH_ARIA_256_GCM_SHA384,
            0xc052 => Self::TLS_DHE_RSA_WITH_ARIA_128_GCM_SHA256,
            0xc053 => Self::TLS_DHE_RSA_WITH_ARIA_256_GCM_SHA384,
            0xc054 => Self::TLS_DH_RSA_WITH_ARIA_128_GCM_SHA256,
            0xc055 => Self::TLS_DH_RSA_WITH_ARIA_256_GCM_SHA384,
            0xc056 => Self::TLS_DHE_DSS_WITH_ARIA_128_GCM_SHA256,
            0xc057 => Self::TLS_DHE_DSS_WITH_ARIA_256_GCM_SHA384,
            0xc058 => Self::TLS_DH_DSS_WITH_ARIA_128_GCM_SHA256,
            0xc059 => Self::TLS_DH_DSS_WITH_ARIA_256_GCM_SHA384,
            0xc05a => Self::TLS_DH_anon_WITH_ARIA_128_GCM_SHA256,
            0xc05b => Self::TLS_DH_anon_WITH_ARIA_256_GCM_SHA384,
            0xc05c => Self::TLS_ECDHE_ECDSA_WITH_ARIA_128_GCM_SHA256,
            0xc05d => Self::TLS_ECDHE_ECDSA_WITH_ARIA_256_GCM_SHA384,
            0xc05e => Self::TLS_ECDH_ECDSA_WITH_ARIA_128_GCM_SHA256,
            0xc05f => Self::TLS_ECDH_ECDSA_WITH_ARIA_256_GCM_SHA384,
            0xc060 => Self::TLS_ECDHE_RSA_WITH_ARIA_128_GCM_SHA256,
            0xc061 => Self::TLS_ECDHE_RSA_WITH_ARIA_256_GCM_SHA384,
            0xc062 => Self::TLS_ECDH_RSA_WITH_ARIA_128_GCM_SHA256,
            0xc063 => Self::TLS_ECDH_RSA_WITH_ARIA_256_GCM_SHA384,
            0xc064 => Self::TLS_PSK_WITH_ARIA_128_CBC_SHA256,
            0xc065 => Self::TLS_PSK_WITH_ARIA_256_CBC_SHA384,
            0xc066 => Self::TLS_DHE_PSK_WITH_ARIA_128_CBC_SHA256,
            0xc067 => Self::TLS_DHE_PSK_WITH_ARIA_256_CBC_SHA384,
            0xc068 => Self::TLS_RSA_PSK_WITH_ARIA_128_CBC_SHA256,
            0xc069 => Self::TLS_RSA_PSK_WITH_ARIA_256_CBC_SHA384,
            0xc06a => Self::TLS_PSK_WITH_ARIA_128_GCM_SHA256,
            0xc06b => Self::TLS_PSK_WITH_ARIA_256_GCM_SHA384,
            0xc06c => Self::TLS_DHE_PSK_WITH_ARIA_128_GCM_SHA256,
            0xc06d => Self::TLS_DHE_PSK_WITH_ARIA_256_GCM_SHA384,
            0xc06e => Self::TLS_RSA_PSK_WITH_ARIA_128_GCM_SHA256,
            0xc06f => Self::TLS_RSA_PSK_WITH_ARIA_256_GCM_SHA384,
            0xc070 => Self::TLS_ECDHE_PSK_WITH_ARIA_128_CBC_SHA256,
            0xc071 => Self::TLS_ECDHE_PSK_WITH_ARIA_256_CBC_SHA384,
            0xc072 => Self::TLS_ECDHE_ECDSA_WITH_CAMELLIA_128_CBC_SHA256,
            0xc073 => Self::TLS_ECDHE_ECDSA_WITH_CAMELLIA_256_CBC_SHA384,
            0xc074 => Self::TLS_ECDH_ECDSA_WITH_CAMELLIA_128_CBC_SHA256,
            0xc075 => Self::TLS_ECDH_ECDSA_WITH_CAMELLIA_256_CBC_SHA384,
            0xc076 => Self::TLS_ECDHE_RSA_WITH_CAMELLIA_128_CBC_SHA256,
            0xc077 => Self::TLS_ECDHE_RSA_WITH_CAMELLIA_256_CBC_SHA384,
            0xc078 => Self::TLS_ECDH_RSA_WITH_CAMELLIA_128_CBC_SHA256,
            0xc079 => Self::TLS_ECDH_RSA_WITH_CAMELLIA_256_CBC_SHA384,
            0xc07a => Self::TLS_RSA_WITH_CAMELLIA_128_GCM_SHA256,
            0xc07b => Self::TLS_RSA_WITH_CAMELLIA_256_GCM_SHA384,
            0xc07c => Self::TLS_DHE_RSA_WITH_CAMELLIA_128_GCM_SHA256,
            0xc07d => Self::TLS_DHE_RSA_WITH_CAMELLIA_256_GCM_SHA384,
            0xc07e => Self::TLS_DH_RSA_WITH_CAMELLIA_128_GCM_SHA256,
            0xc07f => Self::TLS_DH_RSA_WITH_CAMELLIA_256_GCM_SHA384,
            0xc080 => Self::TLS_DHE_DSS_WITH_CAMELLIA_128_GCM_SHA256,
            0xc081 => Self::TLS_DHE_DSS_WITH_CAMELLIA_256_GCM_SHA384,
            0xc082 => Self::TLS_DH_DSS_WITH_CAMELLIA_128_GCM_SHA256,
            0xc083 => Self::TLS_DH_DSS_WITH_CAMELLIA_256_GCM_SHA384,
            0xc084 => Self::TLS_DH_anon_WITH_CAMELLIA_128_GCM_SHA256,
            0xc085 => Self::TLS_DH_anon_WITH_CAMELLIA_256_GCM_SHA384,
            0xc086 => Self::TLS_ECDHE_ECDSA_WITH_CAMELLIA_128_GCM_SHA256,
            0xc087 => Self::TLS_ECDHE_ECDSA_WITH_CAMELLIA_256_GCM_SHA384,
            0xc088 => Self::TLS_ECDH_ECDSA_WITH_CAMELLIA_128_GCM_SHA256,
            0xc089 => Self::TLS_ECDH_ECDSA_WITH_CAMELLIA_256_GCM_SHA384,
            0xc08a => Self::TLS_ECDHE_RSA_WITH_CAMELLIA_128_GCM_SHA256,
            0xc08b => Self::TLS_ECDHE_RSA_WITH_CAMELLIA_256_GCM_SHA384,
            0xc08c => Self::TLS_ECDH_RSA_WITH_CAMELLIA_128_GCM_SHA256,
            0xc08d => Self::TLS_ECDH_RSA_WITH_CAMELLIA_256_GCM_SHA384,
            0xc08e => Self::TLS_PSK_WITH_CAMELLIA_128_GCM_SHA256,
            0xc08f => Self::TLS_PSK_WITH_CAMELLIA_256_GCM_SHA384,
            0xc090 => Self::TLS_DHE_PSK_WITH_CAMELLIA_128_GCM_SHA256,
            0xc091 => Self::TLS_DHE_PSK_WITH_CAMELLIA_256_GCM_SHA384,
            0xc092 => Self::TLS_RSA_PSK_WITH_CAMELLIA_128_GCM_SHA256,
            0xc093 => Self::TLS_RSA_PSK_WITH_CAMELLIA_256_GCM_SHA384,
            0xc094 => Self::TLS_PSK_WITH_CAMELLIA_128_CBC_SHA256,
            0xc095 => Self::TLS_PSK_WITH_CAMELLIA_256_CBC_SHA384,
            0xc096 => Self::TLS_DHE_PSK_WITH_CAMELLIA_128_CBC_SHA256,
            0xc097 => Self::TLS_DHE_PSK_WITH_CAMELLIA_256_CBC_SHA384,
            0xc098 => Self::TLS_RSA_PSK_WITH_CAMELLIA_128_CBC_SHA256,
            0xc099 => Self::TLS_RSA_PSK_WITH_CAMELLIA_256_CBC_SHA384,
            0xc09a => Self::TLS_ECDHE_PSK_WITH_CAMELLIA_128_CBC_SHA256,
            0xc09b => Self::TLS_ECDHE_PSK_WITH_CAMELLIA_256_CBC_SHA384,
            0xc09c => Self::TLS_RSA_WITH_AES_128_CCM,
            0xc09d => Self::TLS_RSA_WITH_AES_256_CCM,
            0xc09e => Self::TLS_DHE_RSA_WITH_AES_128_CCM,
            0xc09f => Self::TLS_DHE_RSA_WITH_AES_256_CCM,
            0xc0a0 => Self::TLS_RSA_WITH_AES_128_CCM_8,
            0xc0a1 => Self::TLS_RSA_WITH_AES_256_CCM_8,
            0xc0a2 => Self::TLS_DHE_RSA_WITH_AES_128_CCM_8,
            0xc0a3 => Self::TLS_DHE_RSA_WITH_AES_256_CCM_8,
            0xc0a4 => Self::TLS_PSK_WITH_AES_128_CCM,
            0xc0a5 => Self::TLS_PSK_WITH_AES_256_CCM,
            0xc0a6 => Self::TLS_DHE_PSK_WITH_AES_128_CCM,
            0xc0a7 => Self::TLS_DHE_PSK_WITH_AES_256_CCM,
            0xc0a8 => Self::TLS_PSK_WITH_AES_128_CCM_8,
            0xc0a9 => Self::TLS_PSK_WITH_AES_256_CCM_8,
            0xc0aa => Self::TLS_PSK_DHE_WITH_AES_128_CCM_8,
            0xc0ab => Self::TLS_PSK_DHE_WITH_AES_256_CCM_8,
            0xc0ac => Self::TLS_ECDHE_ECDSA_WITH_AES_128_CCM,
            0xc0ad => Self::TLS_ECDHE_ECDSA_WITH_AES_256_CCM,
            0xc0ae => Self::TLS_ECDHE_ECDSA_WITH_AES_128_CCM_8,
            0xc0af => Self::TLS_ECDHE_ECDSA_WITH_AES_256_CCM_8,
            0xccaa => Self::TLS_DHE_RSA_WITH_CHACHA20_POLY1305_SHA256,
            0xccab => Self::TLS_PSK_WITH_CHACHA20_POLY1305_SHA256,
            0xccac => Self::TLS_ECDHE_PSK_WITH_CHACHA20_POLY1305_SHA256,
            0xccad => Self::TLS_DHE_PSK_WITH_CHACHA20_POLY1305_SHA256,
            0xccae => Self::TLS_RSA_PSK_WITH_CHACHA20_POLY1305_SHA256,
            0xfefe => Self::SSL_RSA_FIPS_WITH_DES_CBC_SHA,
            0xfeff => Self::SSL_RSA_FIPS_WITH_3DES_EDE_CBC_SHA,
            _ => Self::Unknown(code),
        }
    }

    fn as_str(&self) -> (name: Option<&'static str>) {
        match Self::from_code(self.code()) {
            Self::TLS_NULL_WITH_NULL_NULL => Some("TLS_NULL_WITH_NULL_NULL"),
            Self::TLS_PSK_WITH_AES_128_GCM_SHA256 => Some("TLS_PSK_WITH_AES_128_GCM_SHA256"),
            Self::TLS_PSK_WITH_AES_256_GCM_SHA384 => Some("TLS_PSK_WITH_AES_256_GCM_SHA384"),
            Self::TLS_EMPTY_RENEGOTIATION_INFO_SCSV => Some("TLS_EMPTY_RENEGOTIATION_INFO_SCSV"),
            Self::TLS13_AES_128_GCM_SHA256 => Some("TLS13_AES_128_GCM_SHA256"),
            Self::TLS13_AES_256_GCM_SHA384 => Some("TLS13_AES_256_GCM_SHA384"),
            Self::TLS13_CHACHA20_POLY1305_SHA256 => Some("TLS13_CHACHA20_POLY1305_SHA256"),
            Self::TLS13_AES_128_CCM_SHA256 => Some("TLS13_AES_128_CCM_SHA256"),
            Self::TLS13_AES_128_CCM_8_SHA256 => Some("TLS13_AES_128_CCM_8_SHA256"),
            Self::TLS_ECDHE_ECDSA_WITH_AES_128_CBC_SHA => Some("TLS_ECDHE_ECDSA_WITH_AES_128_CBC_SHA"),
            Self::TLS_ECDHE_ECDSA_WITH_AES_256_CBC_SHA => Some("TLS_ECDHE_ECDSA_WITH_AES_256_CBC_SHA"),
            Self::TLS_ECDHE_RSA_WITH_AES_128_CBC_SHA => Some("TLS_ECDHE_RSA_WITH_AES_128_CBC_SHA"),
            Self::TLS_ECDHE_RSA_WITH_AES_256_CBC_SHA => Some("TLS_ECDHE_RSA_WITH_AES_256_CBC_SHA"),
            Self::TLS_ECDHE_ECDSA_WITH_AES_128_CBC_SHA256 => Some("TLS_ECDHE_ECDSA_WITH_AES_128_CBC_SHA256"),
            Self::TLS_ECDHE_ECDSA_WITH_AES_256_CBC_SHA384 => Some("TLS_ECDHE_ECDSA_WITH_AES_256_CBC_SHA384"),
            Self::TLS_ECDHE_RSA_WITH_AES_128_CBC_SHA256 => Some("TLS_ECDHE_RSA_WITH_AES_128_CBC_SHA256"),
            Self::TLS_ECDHE_RSA_WITH_AES_256_CBC_SHA384 => Some("TLS_ECDHE_RSA_WITH_AES_256_CBC_SHA384"),
            Self::TLS_ECDHE_ECDSA_WITH_AES_128_GCM_SHA256 => Some("TLS_ECDHE_ECDSA_WITH_AES_128_GCM_SHA256"),
            Self::TLS_ECDHE_ECDSA_WITH_AES_256_GCM_SHA384 => Some("TLS_ECDHE_ECDSA_WITH_AES_256_GCM_SHA384"),
            Self::TLS_ECDHE_RSA_WITH_AES_128_GCM_SHA256 => Some("TLS_ECDHE_RSA_WITH_AES_128_GCM_SHA256"),
            Self::TLS_ECDHE_RSA_WITH_AES_256_GCM_SHA384 => Some("TLS_ECDHE_RSA_WITH_AES_256_GCM_SHA384"),
            Self::TLS_ECDHE_RSA_WITH_CHACHA20_POLY1305_SHA256 => Some("TLS_ECDHE_RSA_WITH_CHACHA20_POLY1305_SHA256"),
            Self::TLS_ECDHE_ECDSA_WITH_CHACHA20_POLY1305_SHA256 => Some("TLS_ECDHE_ECDSA_WITH_CHACHA20_POLY1305_SHA256"),
            Self::TLS_RSA_WITH_NULL_MD5 => Some("TLS_RSA_WITH_NULL_MD5"),
            Self::TLS_RSA_WITH_NULL_SHA => Some("TLS_RSA_WITH_NULL_SHA"),
            Self::TLS_RSA_EXPORT_WITH_RC4_40_MD5 => Some("TLS_RSA_EXPORT_WITH_RC4_40_MD5"),
            Self::TLS_RSA_WITH_RC4_128_MD5 => Some("TLS_RSA_WITH_RC4_128_MD5"),
            Self::TLS_RSA_WITH_RC4_128_SHA => Some("TLS_RSA_WITH_RC4_128_SHA"),
            Self::TLS_RSA_EXPORT_WITH_RC2_CBC_40_MD5 => Some("TLS_RSA_EXPORT_WITH_RC2_CBC_40_MD5"),
            Self::TLS_RSA_WITH_IDEA_CBC_SHA => Some("TLS_RSA_WITH_IDEA_CBC_SHA"),
            Self::TLS_RSA_EXPORT_WITH_DES40_CBC_SHA => Some("TLS_RSA_EXPORT_WITH_DES40_CBC_SHA"),
            Self::TLS_RSA_WITH_DES_CBC_SHA => Some("TLS_RSA_WITH_DES_CBC_SHA"),
            Self::TLS_RSA_WITH_3DES_EDE_CBC_SHA => Some("TLS_RSA_WITH_3DES_EDE_CBC_SHA"),
            Self::TLS_DH_DSS_EXPORT_WITH_DES40_CBC_SHA => Some("TLS_DH_DSS_EXPORT_WITH_DES40_CBC_SHA"),
            Self::TLS_DH_DSS_WITH_DES_CBC_SHA => Some("TLS_DH_DSS_WITH_DES_CBC_SHA"),
            Self::TLS_DH_DSS_WITH_3DES_EDE_CBC_SHA => Some("TLS_DH_DSS_WITH_3DES_EDE_CBC_SHA"),
            Self::TLS_DH_RSA_EXPORT_WITH_DES40_CBC_SHA => Some("TLS_DH_RSA_EXPORT_WITH_DES40_CBC_SHA"),
            Self::TLS_DH_RSA_WITH_DES_CBC_SHA => Some("TLS_DH_RSA_WITH_DES_CBC_SHA"),
            Self::TLS_DH_RSA_WITH_3DES_EDE_CBC_SHA => Some("TLS_DH_RSA_WITH_3DES_EDE_CBC_SHA"),
            Self::TLS_DHE_DSS_EXPORT_WITH_DES40_CBC_SHA => Some("TLS_DHE_DSS_EXPORT_WITH_DES40_CBC_SHA"),
            Self::TLS_DHE_DSS_WITH_DES_CBC_SHA => Some("TLS_DHE_DSS_WITH_DES_CBC_SHA"),
            Self::TLS_DHE_DSS_WITH_3DES_EDE_CBC_SHA => Some("TLS_DHE_DSS_WITH_3DES_EDE_CBC_SHA"),
            Self::TLS_DHE_RSA_EXPORT_WITH_DES40_CBC_SHA => Some("TLS_DHE_RSA_EXPORT_WITH_DES40_CBC_SHA"),
            Self::TLS_DHE_RSA_WITH_DES_CBC_SHA => Some("TLS_DHE_RSA_WITH_DES_CBC_SHA"),
            Self::TLS_DHE_RSA_WITH_3DES_EDE_CBC_SHA => Some("TLS_DHE_RSA_WITH_3DES_EDE_CBC_SHA"),
            Self::TLS_DH_anon_EXPORT_WITH_RC4_40_MD5 => Some("TLS_DH_anon_EXPORT_WITH_RC4_40_MD5"),
            Self::TLS_DH_anon_WITH_RC4_128_MD5 => Some("TLS_DH_anon_WITH_RC4_128_MD5"),
            Self::TLS_DH_anon_EXPORT_WITH_DES40_CBC_SHA => Some("TLS_DH_anon_EXPORT_WITH_DES40_CBC_SHA"),
            Self::TLS_DH_anon_WITH_DES_CBC_SHA => Some("TLS_DH_anon_WITH_DES_CBC_SHA"),
            Self::TLS_DH_anon_WITH_3DES_EDE_CBC_SHA => Some("TLS_DH_anon_WITH_3DES_EDE_CBC_SHA"),
            Self::SSL_FORTEZZA_KEA_WITH_NULL_SHA => Some("SSL_FORTEZZA_KEA_WITH_NULL_SHA"),
            Self::SSL_FORTEZZA_KEA_WITH_FORTEZZA_CBC_SHA => Some("SSL_FORTEZZA_KEA_WITH_FORTEZZA_CBC_SHA"),
            Self::TLS_KRB5_WITH_DES_CBC_SHA_or_SSL_FORTEZZA_KEA_WITH_RC4_128_SHA => Some("TLS_KRB5_WITH_DES_CBC_SHA_or_SSL_FORTEZZA_KEA_WITH_RC4_128_SHA"),
            Self::TLS_KRB5_WITH_3DES_EDE_CBC_SHA => Some("TLS_KRB5_WITH_3DES_EDE_CBC_SHA"),
            Self::TLS_KRB5_WITH_RC4_128_SHA => Some("TLS_KRB5_WITH_RC4_128_SHA"),
            Self::TLS_KRB5_WITH_IDEA_CBC_SHA => Some("TLS_KRB5_WITH_IDEA_CBC_SHA"),
            Self::TLS_KRB5_WITH_DES_CBC_MD5 => Some("TLS_KRB5_WITH_DES_CBC_MD5"),
            Self::TLS_KRB5_WITH_3DES_EDE_CBC_MD5 => Some("TLS_KRB5_WITH_3DES_EDE_CBC_MD5"),
            Self::TLS_KRB5_WITH_RC4_128_MD5 => Some("TLS_KRB5_WITH_RC4_128_MD5"),
            Self::TLS_KRB5_WITH_IDEA_CBC_MD5 => Some("TLS_KRB5_WITH_IDEA_CBC_MD5"),
            Self::TLS_KRB5_EXPORT_WITH_DES_CBC_40_SHA => Some("TLS_KRB5_EXPORT_WITH_DES_CBC_40_SHA"),
            Self::TLS_KRB5_EXPORT_WITH_RC2_CBC_40_SHA => Some("TLS_KRB5_EXPORT_WITH_RC2_CBC_40_SHA"),
            Self::TLS_KRB5_EXPORT_WITH_RC4_40_SHA => Some("TLS_KRB5_EXPORT_WITH_RC4_40_SHA"),
            Self::TLS_KRB5_EXPORT_WITH_DES_CBC_40_MD5 => Some("TLS_KRB5_EXPORT_WITH_DES_CBC_40_MD5"),
            Self::TLS_KRB5_EXPORT_WITH_RC2_CBC_40_MD5 => Some("TLS_KRB5_EXPORT_WITH_RC2_CBC_40_MD5"),
            Self::TLS_KRB5_EXPORT_WITH_RC4_40_MD5 => Some("TLS_KRB5_EXPORT_WITH_RC4_40_MD5"),
            Self::TLS_PSK_WITH_NULL_SHA => Some("TLS_PSK_WITH_NULL_SHA"),
            Self::TLS_DHE_PSK_WITH_NULL_SHA => Some("TLS_DHE_PSK_WITH_NULL_SHA"),
            Self::TLS_RSA_PSK_WITH_NULL_SHA => Some("TLS_RSA_PSK_WITH_NULL_SHA"),
            Self::TLS_RSA_WITH_AES_128_CBC_SHA => Some("TLS_RSA_WITH_AES_128_CBC_SHA"),
            Self::TLS_DH_DSS_WITH_AES_128_CBC_SHA => Some("TLS_DH_DSS_WITH_AES_128_CBC_SHA"),
            Self::TLS_DH_RSA_WITH_AES_128_CBC_SHA => Some("TLS_DH_RSA_WITH_AES_128_CBC_SHA"),
            Self::TLS_DHE_DSS_WITH_AES_128_CBC_SHA => Some("TLS_DHE_DSS_WITH_AES_128_CBC_SHA"),
            Self::TLS_DHE_RSA_WITH_AES_128_CBC_SHA => Some("TLS_DHE_RSA_WITH_AES_128_CBC_SHA"),
            Self::TLS_DH_anon_WITH_AES_128_CBC_SHA => Some("TLS_DH_anon_WITH_AES_128_CBC_SHA"),
            Self::TLS_RSA_WITH_AES_256_CBC_SHA => Some("TLS_RSA_WITH_AES_256_CBC_SHA"),
            Self::TLS_DH_DSS_WITH_AES_256_CBC_SHA => Some("TLS_DH_DSS_WITH_AES_256_CBC_SHA"),
            Self::TLS_DH_RSA_WITH_AES_256_CBC_SHA => Some("TLS_DH_RSA_WITH_AES_256_CBC_SHA"),
            Self::TLS_DHE_DSS_WITH_AES_256_CBC_SHA => Some("TLS_DHE_DSS_WITH_AES_256_CBC_SHA"),
            Self::TLS_DHE_RSA_WITH_AES_256_CBC_SHA => Some("TLS_DHE_RSA_WITH_AES_256_CBC_SHA"),
            Self::TLS_DH_anon_WITH_AES_256_CBC_SHA => Some("TLS_DH_anon_WITH_AES_256_CBC_SHA"),
            Self::TLS_RSA_WITH_NULL_SHA256 => Some("TLS_RSA_WITH_NULL_SHA256"),
            Self::TLS_RSA_WITH_AES_128_CBC_SHA256 => Some("TLS_RSA_WITH_AES_128_CBC_SHA256"),
            Self::TLS_RSA_WITH_AES_256_CBC_SHA256 => Some("TLS_RSA_WITH_AES_256_CBC_SHA256"),
            Self::TLS_DH_DSS_WITH_AES_128_CBC_SHA256 => Some("TLS_DH_DSS_WITH_AES_128_CBC_SHA256"),
            Self::TLS_DH_RSA_WITH_AES_128_CBC_SHA256 => Some("TLS_DH_RSA_WITH_AES_128_CBC_SHA256"),
            Self::TLS_DHE_DSS_WITH_AES_128_CBC_SHA256 => Some("TLS_DHE_DSS_WITH_AES_128_CBC_SHA256"),
            Self::TLS_RSA_WITH_CAMELLIA_128_CBC_SHA => Some("TLS_RSA_WITH_CAMELLIA_128_CBC_SHA"),
            Self::TLS_DH_DSS_WITH_CAMELLIA_128_CBC_SHA => Some("TLS_DH_DSS_WITH_CAMELLIA_128_CBC_SHA"),
            Self::TLS_DH_RSA_WITH_CAMELLIA_128_CBC_SHA => Some("TLS_DH_RSA_WITH_CAMELLIA_128_CBC_SHA"),
            Self::TLS_DHE_DSS_WITH_CAMELLIA_128_CBC_SHA => Some("TLS_DHE_DSS_WITH_CAMELLIA_128_CBC_SHA"),
            Self::TLS_DHE_RSA_WITH_CAMELLIA_128_CBC_SHA => Some("TLS_DHE_RSA_WITH_CAMELLIA_128_CBC_SHA"),
            Self::TLS_DH_anon_WITH_CAMELLIA_128_CBC_SHA => Some("TLS_DH_anon_WITH_CAMELLIA_128_CBC_SHA"),
            Self::TLS_ECDH_ECDSA_WITH_NULL_SHA_draft => Some("TLS_ECDH_ECDSA_WITH_NULL_SHA_draft"),
            Self::TLS_ECDH_ECDSA_WITH_RC4_128_SHA_draft => Some("TLS_ECDH_ECDSA_WITH_RC4_128_SHA_draft"),
            Self::TLS_ECDH_ECDSA_WITH_DES_CBC_SHA_draft => Some("TLS_ECDH_ECDSA_WITH_DES_CBC_SHA_draft"),
            Self::TLS_ECDH_ECDSA_WITH_3DES_EDE_CBC_SHA_draft => Some("TLS_ECDH_ECDSA_WITH_3DES_EDE_CBC_SHA_draft"),
            Self::TLS_ECDH_ECDSA_WITH_AES_128_CBC_SHA_draft => Some("TLS_ECDH_ECDSA_WITH_AES_128_CBC_SHA_draft"),
            Self::TLS_ECDH_ECDSA_WITH_AES_256_CBC_SHA_draft => Some("TLS_ECDH_ECDSA_WITH_AES_256_CBC_SHA_draft"),
            Self::TLS_ECDH_ECNRA_WITH_DES_CBC_SHA_draft => Some("TLS_ECDH_ECNRA_WITH_DES_CBC_SHA_draft"),
            Self::TLS_ECDH_ECNRA_WITH_3DES_EDE_CBC_SHA_draft => Some("TLS_ECDH_ECNRA_WITH_3DES_EDE_CBC_SHA_draft"),
            Self::TLS_ECMQV_ECDSA_NULL_SHA_draft => Some("TLS_ECMQV_ECDSA_NULL_SHA_draft"),
            Self::TLS_ECMQV_ECDSA_WITH_RC4_128_SHA_draft => Some("TLS_ECMQV_ECDSA_WITH_RC4_128_SHA_draft"),
            Self::TLS_ECMQV_ECDSA_WITH_DES_CBC_SHA_draft => Some("TLS_ECMQV_ECDSA_WITH_DES_CBC_SHA_draft"),
            Self::TLS_ECMQV_ECDSA_WITH_3DES_EDE_CBC_SHA_draft => Some("TLS_ECMQV_ECDSA_WITH_3DES_EDE_CBC_SHA_draft"),
            Self::TLS_ECMQV_ECNRA_NULL_SHA_draft => Some("TLS_ECMQV_ECNRA_NULL_SHA_draft"),
            Self::TLS_ECMQV_ECNRA_WITH_RC4_128_SHA_draft => Some("TLS_ECMQV_ECNRA_WITH_RC4_128_SHA_draft"),
            Self::TLS_ECMQV_ECNRA_WITH_DES_CBC_SHA_draft => Some("TLS_ECMQV_ECNRA_WITH_DES_CBC_SHA_draft"),
            Self::TLS_ECMQV_ECNRA_WITH_3DES_EDE_CBC_SHA_draft => Some("TLS_ECMQV_ECNRA_WITH_3DES_EDE_CBC_SHA_draft"),
            Self::TLS_ECDH_anon_NULL_WITH_SHA_draft => Some("TLS_ECDH_anon_NULL_WITH_SHA_draft"),
            Self::TLS_ECDH_anon_WITH_RC4_128_SHA_draft => Some("TLS_ECDH_anon_WITH_RC4_128_SHA_draft"),
            Self::TLS_ECDH_anon_WITH_DES_CBC_SHA_draft => Some("TLS_ECDH_anon_WITH_DES_CBC_SHA_draft"),
            Self::TLS_ECDH_anon_WITH_3DES_EDE_CBC_SHA_draft => Some("TLS_ECDH_anon_WITH_3DES_EDE_CBC_SHA_draft"),
            Self::TLS_ECDH_anon_EXPORT_WITH_DES40_CBC_SHA_draft => Some("TLS_ECDH_anon_EXPORT_WITH_DES40_CBC_SHA_draft"),
            Self::TLS_ECDH_anon_EXPORT_WITH_RC4_40_SHA_draft => Some("TLS_ECDH_anon_EXPORT_WITH_RC4_40_SHA_draft"),
            Self::TLS_RSA_EXPORT1024_WITH_RC4_56_MD5 => Some("TLS_RSA_EXPORT1024_WITH_RC4_56_MD5"),
            Self::TLS_RSA_EXPORT1024_WITH_RC2_CBC_56_MD5 => Some("TLS_RSA_EXPORT1024_WITH_RC2_CBC_56_MD5"),
            Self::TLS_RSA_EXPORT1024_WITH_DES_CBC_SHA => Some("TLS_RSA_EXPORT1024_WITH_DES_CBC_SHA"),
            Self::TLS_DHE_DSS_EXPORT1024_WITH_DES_CBC_SHA => Some("TLS_DHE_DSS_EXPORT1024_WITH_DES_CBC_SHA"),
            Self::TLS_RSA_EXPORT1024_WITH_RC4_56_SHA => Some("TLS_RSA_EXPORT1024_WITH_RC4_56_SHA"),
            Self::TLS_DHE_DSS_EXPORT1024_WITH_RC4_56_SHA => Some("TLS_DHE_DSS_EXPORT1024_WITH_RC4_56_SHA"),
            Self::TLS_DHE_DSS_WITH_RC4_128_SHA => Some("TLS_DHE_DSS_WITH_RC4_128_SHA"),
            Self::TLS_DHE_RSA_WITH_AES_128_CBC_SHA256 => Some("TLS_DHE_RSA_WITH_AES_128_CBC_SHA256"),
            Self::TLS_DH_DSS_WITH_AES_256_CBC_SHA256 => Some("TLS_DH_DSS_WITH_AES_256_CBC_SHA256"),
            Self::TLS_DH_RSA_WITH_AES_256_CBC_SHA256 => Some("TLS_DH_RSA_WITH_AES_256_CBC_SHA256"),
            Self::TLS_DHE_DSS_WITH_AES_256_CBC_SHA256 => Some("TLS_DHE_DSS_WITH_AES_256_CBC_SHA256"),
            Self::TLS_DHE_RSA_WITH_AES_256_CBC_SHA256 => Some("TLS_DHE_RSA_WITH_AES_256_CBC_SHA256"),
            Self::TLS_DH_anon_WITH_AES_128_CBC_SHA256 => Some("TLS_DH_anon_WITH_AES_128_CBC_SHA256"),
            Self::TLS_DH_anon_WITH_AES_256_CBC_SHA256 => Some("TLS_DH_anon_WITH_AES_256_CBC_SHA256"),
            Self::TLS_DHE_DSS_WITH_3DES_EDE_CBC_RMD => Some("TLS_DHE_DSS_WITH_3DES_EDE_CBC_RMD"),
            Self::TLS_DHE_DSS_WITH_AES_128_CBC_RMD => Some("TLS_DHE_DSS_WITH_AES_128_CBC_RMD"),
            Self::TLS_DHE_DSS_WITH_AES_256_CBC_RMD => Some("TLS_DHE_DSS_WITH_AES_256_CBC_RMD"),
            Self::TLS_DHE_RSA_WITH_3DES_EDE_CBC_RMD => Some("TLS_DHE_RSA_WITH_3DES_EDE_CBC_RMD"),
            Self::TLS_DHE_RSA_WITH_AES_128_CBC_RMD => Some("TLS_DHE_RSA_WITH_AES_128_CBC_RMD"),
            Self::TLS_DHE_RSA_WITH_AES_256_CBC_RMD => Some("TLS_DHE_RSA_WITH_AES_256_CBC_RMD"),
            Self::TLS_RSA_WITH_3DES_EDE_CBC_RMD => Some("TLS_RSA_WITH_3DES_EDE_CBC_RMD"),
            Self::TLS_RSA_WITH_AES_128_CBC_RMD => Some("TLS_RSA_WITH_AES_128_CBC_RMD"),
            Self::TLS_RSA_WITH_AES_256_CBC_RMD => Some("TLS_RSA_WITH_AES_256_CBC_RMD"),
            Self::TLS_GOSTR341094_WITH_28147_CNT_IMIT => Some("TLS_GOSTR341094_WITH_28147_CNT_IMIT"),
            Self::TLS_GOSTR341001_WITH_28147_CNT_IMIT => Some("TLS_GOSTR341001_WITH_28147_CNT_IMIT"),
            Self::TLS_GOSTR341094_WITH_NULL_GOSTR3411 => Some("TLS_GOSTR341094_WITH_NULL_GOSTR3411"),
            Self::TLS_GOSTR341001_WITH_NULL_GOSTR3411 => Some("TLS_GOSTR341001_WITH_NULL_GOSTR3411"),
            Self::TLS_RSA_WITH_CAMELLIA_256_CBC_SHA => Some("TLS_RSA_WITH_CAMELLIA_256_CBC_SHA"),
            Self::TLS_DH_DSS_WITH_CAMELLIA_256_CBC_SHA => Some("TLS_DH_DSS_WITH_CAMELLIA_256_CBC_SHA"),
            Self::TLS_DH_RSA_WITH_CAMELLIA_256_CBC_SHA => Some("TLS_DH_RSA_WITH_CAMELLIA_256_CBC_SHA"),
            Self::TLS_DHE_DSS_WITH_CAMELLIA_256_CBC_SHA => Some("TLS_DHE_DSS_WITH_CAMELLIA_256_CBC_SHA"),
            Self::TLS_DHE_RSA_WITH_CAMELLIA_256_CBC_SHA => Some("TLS_DHE_RSA_WITH_CAMELLIA_256_CBC_SHA"),
            Self::TLS_DH_anon_WITH_CAMELLIA_256_CBC_SHA => Some("TLS_DH_anon_WITH_CAMELLIA_256_CBC_SHA"),
            Self::TLS_PSK_WITH_RC4_128_SHA => Some("TLS_PSK_WITH_RC4_128_SHA"),
            Self::TLS_PSK_WITH_3DES_EDE_CBC_SHA => Some("TLS_PSK_WITH_3DES_EDE_CBC_SHA"),
            Self::TLS_PSK_WITH_AES_128_CBC_SHA => Some("TLS_PSK_WITH_AES_128_CBC_SHA"),
            Self::TLS_PSK_WITH_AES_256_CBC_SHA => Some("TLS_PSK_WITH_AES_256_CBC_SHA"),
            Self::TLS_DHE_PSK_WITH_RC4_128_SHA => Some("TLS_DHE_PSK_WITH_RC4_128_SHA"),
            Self::TLS_DHE_PSK_WITH_3DES_EDE_CBC_SHA => Some("TLS_DHE_PSK_WITH_3DES_EDE_CBC_SHA"),
            Self::TLS_DHE_PSK_WITH_AES_128_CBC_SHA => Some("TLS_DHE_PSK_WITH_AES_128_CBC_SHA"),
            Self::TLS_DHE_PSK_WITH_AES_256_CBC_SHA => Some("TLS_DHE_PSK_WITH_AES_256_CBC_SHA"),
            Self::TLS_RSA_PSK_WITH_RC4_128_SHA => Some("TLS_RSA_PSK_WITH_RC4_128_SHA"),
            Self::TLS_RSA_PSK_WITH_3DES_EDE_CBC_SHA => Some("TLS_RSA_PSK_WITH_3DES_EDE_CBC_SHA"),
            Self::TLS_RSA_PSK_WITH_AES_128_CBC_SHA => Some("TLS_RSA_PSK_WITH_AES_128_CBC_SHA"),
            Self::TLS_RSA_PSK_WITH_AES_256_CBC_SHA => Some("TLS_RSA_PSK_WITH_AES_256_CBC_SHA"),
            Self::TLS_RSA_WITH_SEED_CBC_SHA => Some("TLS_RSA_WITH_SEED_CBC_SHA"),
            Self::TLS_DH_DSS_WITH_SEED_CBC_SHA => Some("TLS_DH_DSS_WITH_SEED_CBC_SHA"),
            Self::TLS_DH_RSA_WITH_SEED_CBC_SHA => Some("TLS_DH_RSA_WITH_SEED_CBC_SHA"),
            Self::TLS_DHE_DSS_WITH_SEED_CBC_SHA => Some("TLS_DHE_DSS_WITH_SEED_CBC_SHA"),
            Self::TLS_DHE_RSA_WITH_SEED_CBC_SHA => Some("TLS_DHE_RSA_WITH_SEED_CBC_SHA"),
            Self::TLS_DH_anon_WITH_SEED_CBC_SHA => Some("TLS_DH_anon_WITH_SEED_CBC_SHA"),
            Self::TLS_RSA_WITH_AES_128_GCM_SHA256 => Some("TLS_RSA_WITH_AES_128_GCM_SHA256"),
            Self::TLS_RSA_WITH_AES_256_GCM_SHA384 => Some("TLS_RSA_WITH_AES_256_GCM_SHA384"),
            Self::TLS_DHE_RSA_WITH_AES_128_GCM_SHA256 => Some("TLS_DHE_RSA_WITH_AES_128_GCM_SHA256"),
            Self::TLS_DHE_RSA_WITH_AES_256_GCM_SHA384 => Some("TLS_DHE_RSA_WITH_AES_256_GCM_SHA384"),
            Self::TLS_DH_RSA_WITH_AES_128_GCM_SHA256 => Some("TLS_DH_RSA_WITH_AES_128_GCM_SHA256"),
            Self::TLS_DH_RSA_WITH_AES_256_GCM_SHA384 => Some("TLS_DH_RSA_WITH_AES_256_GCM_SHA384"),
            Self::TLS_DHE_DSS_WITH_AES_128_GCM_SHA256 => Some("TLS_DHE_DSS_WITH_AES_128_GCM_SHA256"),
            Self::TLS_DHE_DSS_WITH_AES_256_GCM_SHA384 => Some("TLS_DHE_DSS_WITH_AES_256_GCM_SHA384"),
            Self::TLS_DH_DSS_WITH_AES_128_GCM_SHA256 => Some("TLS_DH_DSS_WITH_AES_128_GCM_SHA256"),
            Self::TLS_DH_DSS_WITH_AES_256_GCM_SHA384 => Some("TLS_DH_DSS_WITH_AES_256_GCM_SHA384"),
            Self::TLS_DH_anon_WITH_AES_128_GCM_SHA256 => Some("TLS_DH_anon_WITH_AES_128_GCM_SHA256"),
            Self::TLS_DH_anon_WITH_AES_256_GCM_SHA384 => Some("TLS_DH_anon_WITH_AES_256_GCM_SHA384"),
            Self::TLS_DHE_PSK_WITH_AES_128_GCM_SHA256 => Some("TLS_DHE_PSK_WITH_AES_128_GCM_SHA256"),
            Self::TLS_DHE_PSK_WITH_AES_256_GCM_SHA384 => Some("TLS_DHE_PSK_WITH_AES_256_GCM_SHA384"),
            Self::TLS_RSA_PSK_WITH_AES_128_GCM_SHA256 => Some("TLS_RSA_PSK_WITH_AES_128_GCM_SHA256"),
            Self::TLS_RSA_PSK_WITH_AES_256_GCM_SHA384 => Some("TLS_RSA_PSK_WITH_AES_256_GCM_SHA384"),
            Self::TLS_PSK_WITH_AES_128_CBC_SHA256 => Some("TLS_PSK_WITH_AES_128_CBC_SHA256"),
            Self::TLS_PSK_WITH_AES_256_CBC_SHA384 => Some("TLS_PSK_WITH_AES_256_CBC_SHA384"),
            Self::TLS_PSK_WITH_NULL_SHA256 => Some("TLS_PSK_WITH_NULL_SHA256"),
            Self::TLS_PSK_WITH_NULL_SHA384 => Some("TLS_PSK_WITH_NULL_SHA384"),
            Self::TLS_DHE_PSK_WITH_AES_128_CBC_SHA256 => Some("TLS_DHE_PSK_WITH_AES_128_CBC_SHA256"),
            Self::TLS_DHE_PSK_WITH_AES_256_CBC_SHA384 => Some("TLS_DHE_PSK_WITH_AES_256_CBC_SHA384"),
            Self::TLS_DHE_PSK_WITH_NULL_SHA256 => Some("TLS_DHE_PSK_WITH_NULL_SHA256"),
            Self::TLS_DHE_PSK_WITH_NULL_SHA384 => Some("TLS_DHE_PSK_WITH_NULL_SHA384"),
            Self::TLS_RSA_PSK_WITH_AES_128_CBC_SHA256 => Some("TLS_RSA_PSK_WITH_AES_128_CBC_SHA256"),
            Self::TLS_RSA_PSK_WITH_AES_256_CBC_SHA384 => Some("TLS_RSA_PSK_WITH_AES_256_CBC_SHA384"),
            Self::TLS_RSA_PSK_WITH_NULL_SHA256 => Some("TLS_RSA_PSK_WITH_NULL_SHA256"),
            Self::TLS_RSA_PSK_WITH_NULL_SHA384 => Some("TLS_RSA_PSK_WITH_NULL_SHA384"),
            Self::TLS_RSA_WITH_CAMELLIA_128_CBC_SHA256 => Some("TLS_RSA_WITH_CAMELLIA_128_CBC_SHA256"),
            Self::TLS_DH_DSS_WITH_CAMELLIA_128_CBC_SHA256 => Some("TLS_DH_DSS_WITH_CAMELLIA_128_CBC_SHA256"),
            Self::TLS_DH_RSA_WITH_CAMELLIA_128_CBC_SHA256 => Some("TLS_DH_RSA_WITH_CAMELLIA_128_CBC_SHA256"),
            Self::TLS_DHE_DSS_WITH_CAMELLIA_128_CBC_SHA256 => Some("TLS_DHE_DSS_WITH_CAMELLIA_128_CBC_SHA256"),
            Self::TLS_DHE_RSA_WITH_CAMELLIA_128_CBC_SHA256 => Some("TLS_DHE_RSA_WITH_CAMELLIA_128_CBC_SHA256"),
            Self::TLS_DH_anon_WITH_CAMELLIA_128_CBC_SHA256 => Some("TLS_DH_anon_WITH_CAMELLIA_128_CBC_SHA256"),
            Self::TLS_RSA_WITH_CAMELLIA_256_CBC_SHA256 => Some("TLS_RSA_WITH_CAMELLIA_256_CBC_SHA256"),
            Self::TLS_DH_DSS_WITH_CAMELLIA_256_CBC_SHA256 => Some("TLS_DH_DSS_WITH_CAMELLIA_256_CBC_SHA256"),
            Self::TLS_DH_RSA_WITH_CAMELLIA_256_CBC_SHA256 => Some("TLS_DH_RSA_WITH_CAMELLIA_256_CBC_SHA256"),
            Self::TLS_DHE_DSS_WITH_CAMELLIA_256_CBC_SHA256 => Some("TLS_DHE_DSS_WITH_CAMELLIA_256_CBC_SHA256"),
            Self::TLS_DHE_RSA_WITH_CAMELLIA_256_CBC_SHA256 => Some("TLS_DHE_RSA_WITH_CAMELLIA_256_CBC_SHA256"),
            Self::TLS_DH_anon_WITH_CAMELLIA_256_CBC_SHA256 => Some("TLS_DH_anon_WITH_CAMELLIA_256_CBC_SHA256"),
            Self::TLS_ECDH_ECDSA_WITH_NULL_SHA => Some("TLS_ECDH_ECDSA_WITH_NULL_SHA"),
            Self::TLS_ECDH_ECDSA_WITH_RC4_128_SHA => Some("TLS_ECDH_ECDSA_WITH_RC4_128_SHA"),
            Self::TLS_ECDH_ECDSA_WITH_3DES_EDE_CBC_SHA => Some("TLS_ECDH_ECDSA_WITH_3DES_EDE_CBC_SHA"),
            Self::TLS_ECDH_ECDSA_WITH_AES_128_CBC_SHA => Some("TLS_ECDH_ECDSA_WITH_AES_128_CBC_SHA"),
            Self::TLS_ECDH_ECDSA_WITH_AES_256_CBC_SHA => Some("TLS_ECDH_ECDSA_WITH_AES_256_CBC_SHA"),
            Self::TLS_ECDHE_ECDSA_WITH_NULL_SHA => Some("TLS_ECDHE_ECDSA_WITH_NULL_SHA"),
            Self::TLS_ECDHE_ECDSA_WITH_RC4_128_SHA => Some("TLS_ECDHE_ECDSA_WITH_RC4_128_SHA"),
            Self::TLS_ECDHE_ECDSA_WITH_3DES_EDE_CBC_SHA => Some("TLS_ECDHE_ECDSA_WITH_3DES_EDE_CBC_SHA"),
            Self::TLS_ECDH_RSA_WITH_NULL_SHA => Some("TLS_ECDH_RSA_WITH_NULL_SHA"),
            Self::TLS_ECDH_RSA_WITH_RC4_128_SHA => Some("TLS_ECDH_RSA_WITH_RC4_128_SHA"),
            Self::TLS_ECDH_RSA_WITH_3DES_EDE_CBC_SHA => Some("TLS_ECDH_RSA_WITH_3DES_EDE_CBC_SHA"),
            Self::TLS_ECDH_RSA_WITH_AES_128_CBC_SHA => Some("TLS_ECDH_RSA_WITH_AES_128_CBC_SHA"),
            Self::TLS_ECDH_RSA_WITH_AES_256_CBC_SHA => Some("TLS_ECDH_RSA_WITH_AES_256_CBC_SHA"),
            Self::TLS_ECDHE_RSA_WITH_NULL_SHA => Some("TLS_ECDHE_RSA_WITH_NULL_SHA"),
            Self::TLS_ECDHE_RSA_WITH_RC4_128_SHA => Some("TLS_ECDHE_RSA_WITH_RC4_128_SHA"),
            Self::TLS_ECDHE_RSA_WITH_3DES_EDE_CBC_SHA => Some("TLS_ECDHE_RSA_WITH_3DES_EDE_CBC_SHA"),
            Self::TLS_ECDH_anon_WITH_NULL_SHA => Some("TLS_ECDH_anon_WITH_NULL_SHA"),
            Self::TLS_ECDH_anon_WITH_RC4_128_SHA => Some("TLS_ECDH_anon_WITH_RC4_128_SHA"),
            Self::TLS_ECDH_anon_WITH_3DES_EDE_CBC_SHA => Some("TLS_ECDH_anon_WITH_3DES_EDE_CBC_SHA"),
            Self::TLS_ECDH_anon_WITH_AES_128_CBC_SHA => Some("TLS_ECDH_anon_WITH_AES_128_CBC_SHA"),
            Self::TLS_ECDH_anon_WITH_AES_256_CBC_SHA => Some("TLS_ECDH_anon_WITH_AES_256_CBC_SHA"),
            Self::TLS_SRP_SHA_WITH_3DES_EDE_CBC_SHA => Some("TLS_SRP_SHA_WITH_3DES_EDE_CBC_SHA"),
            Self::TLS_SRP_SHA_RSA_WITH_3DES_EDE_CBC_SHA => Some("TLS_SRP_SHA_RSA_WITH_3DES_EDE_CBC_SHA"),
            Self::TLS_SRP_SHA_DSS_WITH_3DES_EDE_CBC_SHA => Some("TLS_SRP_SHA_DSS_WITH_3DES_EDE_CBC_SHA"),
            Self::TLS_SRP_SHA_WITH_AES_128_CBC_SHA => Some("TLS_SRP_SHA_WITH_AES_128_CBC_SHA"),
            Self::TLS_SRP_SHA_RSA_WITH_AES_128_CBC_SHA => Some("TLS_SRP_SHA_RSA_WITH_AES_128_CBC_SHA"),
            Self::TLS_SRP_SHA_DSS_WITH_AES_128_CBC_SHA => Some("TLS_SRP_SHA_DSS_WITH_AES_128_CBC_SHA"),
            Self::TLS_SRP_SHA_WITH_AES_256_CBC_SHA => Some("TLS_SRP_SHA_WITH_AES_256_CBC_SHA"),
            Self::TLS_SRP_SHA_RSA_WITH_AES_256_CBC_SHA => Some("TLS_SRP_SHA_RSA_WITH_AES_256_CBC_SHA"),
            Self::TLS_SRP_SHA_DSS_WITH_AES_256_CBC_SHA => Some("TLS_SRP_SHA_DSS_WITH_AES_256_CBC_SHA"),
            Self::TLS_ECDH_ECDSA_WITH_AES_128_CBC_SHA256 => Some("TLS_ECDH_ECDSA_WITH_AES_128_CBC_SHA256"),
            Self::TLS_ECDH_ECDSA_WITH_AES_256_CBC_SHA384 => Some("TLS_ECDH_ECDSA_WITH_AES_256_CBC_SHA384"),
            Self::TLS_ECDH_RSA_WITH_AES_128_CBC_SHA256 => Some("TLS_ECDH_RSA_WITH_AES_128_CBC_SHA256"),
            Self::TLS_ECDH_RSA_WITH_AES_256_CBC_SHA384 => Some("TLS_ECDH_RSA_WITH_AES_256_CBC_SHA384"),
            Self::TLS_ECDH_ECDSA_WITH_AES_128_GCM_SHA256 => Some("TLS_ECDH_ECDSA_WITH_AES_128_GCM_SHA256"),
            Self::TLS_ECDH_ECDSA_WITH_AES_256_GCM_SHA384 => Some("TLS_ECDH_ECDSA_WITH_AES_256_GCM_SHA384"),
            Self::TLS_ECDH_RSA_WITH_AES_128_GCM_SHA256 => Some("TLS_ECDH_RSA_WITH_AES_128_GCM_SHA256"),
            Self::TLS_ECDH_RSA_WITH_AES_256_GCM_SHA384 => Some("TLS_ECDH_RSA_WITH_AES_256_GCM_SHA384"),
            Self::TLS_ECDHE_PSK_WITH_RC4_128_SHA => Some("TLS_ECDHE_PSK_WITH_RC4_128_SHA"),
            Self::TLS_ECDHE_PSK_WITH_3DES_EDE_CBC_SHA => Some("TLS_ECDHE_PSK_WITH_3DES_EDE_CBC_SHA"),
            Self::TLS_ECDHE_PSK_WITH_AES_128_CBC_SHA => Some("TLS_ECDHE_PSK_WITH_AES_128_CBC_SHA"),
            Self::TLS_ECDHE_PSK_WITH_AES_256_CBC_SHA => Some("TLS_ECDHE_PSK_WITH_AES_256_CBC_SHA"),
            Self::TLS_ECDHE_PSK_WITH_AES_128_CBC_SHA256 => Some("TLS_ECDHE_PSK_WITH_AES_128_CBC_SHA256"),
            Self::TLS_ECDHE_PSK_WITH_AES_256_CBC_SHA384 => Some("TLS_ECDHE_PSK_WITH_AES_256_CBC_SHA384"),
            Self::TLS_ECDHE_PSK_WITH_NULL_SHA => Some("TLS_ECDHE_PSK_WITH_NULL_SHA"),
            Self::TLS_ECDHE_PSK_WITH_NULL_SHA256 => Some("TLS_ECDHE_PSK_WITH_NULL_SHA256"),
            Self::TLS_ECDHE_PSK_WITH_NULL_SHA384 => Some("TLS_ECDHE_PSK_WITH_NULL_SHA384"),
            Self::TLS_RSA_WITH_ARIA_128_CBC_SHA256 => Some("TLS_RSA_WITH_ARIA_128_CBC_SHA256"),
            Self::TLS_RSA_WITH_ARIA_256_CBC_SHA384 => Some("TLS_RSA_WITH_ARIA_256_CBC_SHA384"),
            Self::TLS_DH_DSS_WITH_ARIA_128_CBC_SHA256 => Some("TLS_DH_DSS_WITH_ARIA_128_CBC_SHA256"),
            Self::TLS_DH_DSS_WITH_ARIA_256_CBC_SHA384 => Some("TLS_DH_DSS_WITH_ARIA_256_CBC_SHA384"),
            Self::TLS_DH_RSA_WITH_ARIA_128_CBC_SHA256 => Some("TLS_DH_RSA_WITH_ARIA_128_CBC_SHA256"),
            Self::TLS_DH_RSA_WITH_ARIA_256_CBC_SHA384 => Some("TLS_DH_RSA_WITH_ARIA_256_CBC_SHA384"),
            Self::TLS_DHE_DSS_WITH_ARIA_128_CBC_SHA256 => Some("TLS_DHE_DSS_WITH_ARIA_128_CBC_SHA256"),
            Self::TLS_DHE_DSS_WITH_ARIA_256_CBC_SHA384 => Some("TLS_DHE_DSS_WITH_ARIA_256_CBC_SHA384"),
            Self::TLS_DHE_RSA_WITH_ARIA_128_CBC_SHA256 => Some("TLS_DHE_RSA_WITH_ARIA_128_CBC_SHA256"),
            Self::TLS_DHE_RSA_WITH_ARIA_256_CBC_SHA384 => Some("TLS_DHE_RSA_WITH_ARIA_256_CBC_SHA384"),
            Self::TLS_DH_anon_WITH_ARIA_128_CBC_SHA256 => Some("TLS_DH_anon_WITH_ARIA_128_CBC_SHA256"),
            Self::TLS_DH_anon_WITH_ARIA_256_CBC_SHA384 => Some("TLS_DH_anon_WITH_ARIA_256_CBC_SHA384"),
            Self::TLS_ECDHE_ECDSA_WITH_ARIA_128_CBC_SHA256 => Some("TLS_ECDHE_ECDSA_WITH_ARIA_128_CBC_SHA256"),
            Self::TLS_ECDHE_ECDSA_WITH_ARIA_256_CBC_SHA384 => Some("TLS_ECDHE_ECDSA_WITH_ARIA_256_CBC_SHA384"),
            Self::TLS_ECDH_ECDSA_WITH_ARIA_128_CBC_SHA256 => Some("TLS_ECDH_ECDSA_WITH_ARIA_128_CBC_SHA256"),
            Self::TLS_ECDH_ECDSA_WITH_ARIA_256_CBC_SHA384 => Some("TLS_ECDH_ECDSA_WITH_ARIA_256_CBC_SHA384"),
            Self::TLS_ECDHE_RSA_WITH_ARIA_128_CBC_SHA256 => Some("TLS_ECDHE_RSA_WITH_ARIA_128_CBC_SHA256"),
            Self::TLS_ECDHE_RSA_WITH_ARIA_256_CBC_SHA384 => Some("TLS_ECDHE_RSA_WITH_ARIA_256_CBC_SHA384"),
            Self::TLS_ECDH_RSA_WITH_ARIA_128_CBC_SHA256 => Some("TLS_ECDH_RSA_WITH_ARIA_128_CBC_SHA256"),
            Self::TLS_ECDH_RSA_WITH_ARIA_256_CBC_SHA384 => Some("TLS_ECDH_RSA_WITH_ARIA_256_CBC_SHA384"),
            Self::TLS_RSA_WITH_ARIA_128_GCM_SHA256 => Some("TLS_RSA_WITH_ARIA_128_GCM_SHA256"),
            Self::TLS_RSA_WITH_ARIA_256_GCM_SHA384 => Some("TLS_RSA_WITH_ARIA_256_GCM_SHA384"),
            Self::TLS_DHE_RSA_WITH_ARIA_128_GCM_SHA256 => Some("TLS_DHE_RSA_WITH_ARIA_128_GCM_SHA256"),
            Self::TLS_DHE_RSA_WITH_ARIA_256_GCM_SHA384 => Some("TLS_DHE_RSA_WITH_ARIA_256_GCM_SHA384"),
            Self::TLS_DH_RSA_WITH_ARIA_128_GCM_SHA256 => Some("TLS_DH_RSA_WITH_ARIA_128_GCM_SHA256"),
            Self::TLS_DH_RSA_WITH_ARIA_256_GCM_SHA384 => Some("TLS_DH_RSA_WITH_ARIA_256_GCM_SHA384"),
            Self::TLS_DHE_DSS_WITH_ARIA_128_GCM_SHA256 => Some("TLS_DHE_DSS_WITH_ARIA_128_GCM_SHA256"),
            Self::TLS_DHE_DSS_WITH_ARIA_256_GCM_SHA384 => Some("TLS_DHE_DSS_WITH_ARIA_256_GCM_SHA384"),
            Self::TLS_DH_DSS_WITH_ARIA_128_GCM_SHA256 => Some("TLS_DH_DSS_WITH_ARIA_128_GCM_SHA256"),
            Self::TLS_DH_DSS_WITH_ARIA_256_GCM_SHA384 => Some("TLS_DH_DSS_WITH_ARIA_256_GCM_SHA384"),
            Self::TLS_DH_anon_WITH_ARIA_128_GCM_SHA256 => Some("TLS_DH_anon_WITH_ARIA_128_GCM_SHA256"),
            Self::TLS_DH_anon_WITH_ARIA_256_GCM_SHA384 => Some("TLS_DH_anon_WITH_ARIA_256_GCM_SHA384"),
            Self::TLS_ECDHE_ECDSA_WITH_ARIA_128_GCM_SHA256 => Some("TLS_ECDHE_ECDSA_WITH_ARIA_128_GCM_SHA256"),
            Self::TLS_ECDHE_ECDSA_WITH_ARIA_256_GCM_SHA384 => Some("TLS_ECDHE_ECDSA_WITH_ARIA_256_GCM_SHA384"),
            Self::TLS_ECDH_ECDSA_WITH_ARIA_128_GCM_SHA256 => Some("TLS_ECDH_ECDSA_WITH_ARIA_128_GCM_SHA256"),
            Self::TLS_ECDH_ECDSA_WITH_ARIA_256_GCM_SHA384 => Some("TLS_ECDH_ECDSA_WITH_ARIA_256_GCM_SHA384"),
            Self::TLS_ECDHE_RSA_WITH_ARIA_128_GCM_SHA256 => Some("TLS_ECDHE_RSA_WITH_ARIA_128_GCM_SHA256"),
            Self::TLS_ECDHE_RSA_WITH_ARIA_256_GCM_SHA384 => Some("TLS_ECDHE_RSA_WITH_ARIA_256_GCM_SHA384"),
            Self::TLS_ECDH_RSA_WITH_ARIA_128_GCM_SHA256 => Some("TLS_ECDH_RSA_WITH_ARIA_128_GCM_SHA256"),
            Self::TLS_ECDH_RSA_WITH_ARIA_256_GCM_SHA384 => Some("TLS_ECDH_RSA_WITH_ARIA_256_GCM_SHA384"),
            Self::TLS_PSK_WITH_ARIA_128_CBC_SHA256 => Some("TLS_PSK_WITH_ARIA_128_CBC_SHA256"),
            Self::TLS_PSK_WITH_ARIA_256_CBC_SHA384 => Some("TLS_PSK_WITH_ARIA_256_CBC_SHA384"),
            Self::TLS_DHE_PSK_WITH_ARIA_128_CBC_SHA256 => Some("TLS_DHE_PSK_WITH_ARIA_128_CBC_SHA256"),
            Self::TLS_DHE_PSK_WITH_ARIA_256_CBC_SHA384 => Some("TLS_DHE_PSK_WITH_ARIA_256_CBC_SHA384"),
            Self::TLS_RSA_PSK_WITH_ARIA_128_CBC_SHA256 => Some("TLS_RSA_PSK_WITH_ARIA_128_CBC_SHA256"),
            Self::TLS_RSA_PSK_WITH_ARIA_256_CBC_SHA384 => Some("TLS_RSA_PSK_WITH_ARIA_256_CBC_SHA384"),
            Self::TLS_PSK_WITH_ARIA_128_GCM_SHA256 => Some("TLS_PSK_WITH_ARIA_128_GCM_SHA256"),
            Self::TLS_PSK_WITH_ARIA_256_GCM_SHA384 => Some("TLS_PSK_WITH_ARIA_256_GCM_SHA384"),
            Self::TLS_DHE_PSK_WITH_ARIA_128_GCM_SHA256 => Some("TLS_DHE_PSK_WITH_ARIA_128_GCM_SHA256"),
            Self::TLS_DHE_PSK_WITH_ARIA_256_GCM_SHA384 => Some("TLS_DHE_PSK_WITH_ARIA_256_GCM_SHA384"),
            Self::TLS_RSA_PSK_WITH_ARIA_128_GCM_SHA256 => Some("TLS_RSA_PSK_WITH_ARIA_128_GCM_SHA256"),
            Self::TLS_RSA_PSK_WITH_ARIA_256_GCM_SHA384 => Some("TLS_RSA_PSK_WITH_ARIA_256_GCM_SHA384"),
            Self::TLS_ECDHE_PSK_WITH_ARIA_128_CBC_SHA256 => Some("TLS_ECDHE_PSK_WITH_ARIA_128_CBC_SHA256"),
            Self::TLS_ECDHE_PSK_WITH_ARIA_256_CBC_SHA384 => Some("TLS_ECDHE_PSK_WITH_ARIA_256_CBC_SHA384"),
            Self::TLS_ECDHE_ECDSA_WITH_CAMELLIA_128_CBC_SHA256 => Some("TLS_ECDHE_ECDSA_WITH_CAMELLIA_128_CBC_SHA256"),
            Self::TLS_ECDHE_ECDSA_WITH_CAMELLIA_256_CBC_SHA384 => Some("TLS_ECDHE_ECDSA_WITH_CAMELLIA_256_CBC_SHA384"),
            Self::TLS_ECDH_ECDSA_WITH_CAMELLIA_128_CBC_SHA256 => Some("TLS_ECDH_ECDSA_WITH_CAMELLIA_128_CBC_SHA256"),
            Self::TLS_ECDH_ECDSA_WITH_CAMELLIA_256_CBC_SHA384 => Some("TLS_ECDH_ECDSA_WITH_CAMELLIA_256_CBC_SHA384"),
            Self::TLS_ECDHE_RSA_WITH_CAMELLIA_128_CBC_SHA256 => Some("TLS_ECDHE_RSA_WITH_CAMELLIA_128_CBC_SHA256"),
            Self::TLS_ECDHE_RSA_WITH_CAMELLIA_256_CBC_SHA384 => Some("TLS_ECDHE_RSA_WITH_CAMELLIA_256_CBC_SHA384"),
            Self::TLS_ECDH_RSA_WITH_CAMELLIA_128_CBC_SHA256 => Some("TLS_ECDH_RSA_WITH_CAMELLIA_128_CBC_SHA256"),
            Self::TLS_ECDH_RSA_WITH_CAMELLIA_256_CBC_SHA384 => Some("TLS_ECDH_RSA_WITH_CAMELLIA_256_CBC_SHA384"),
            Self::TLS_RSA_WITH_CAMELLIA_128_GCM_SHA256 => Some("TLS_RSA_WITH_CAMELLIA_128_GCM_SHA256"),
            Self::TLS_RSA_WITH_CAMELLIA_256_GCM_SHA384 => Some("TLS_RSA_WITH_CAMELLIA_256_GCM_SHA384"),
            Self::TLS_DHE_RSA_WITH_CAMELLIA_128_GCM_SHA256 => Some("TLS_DHE_RSA_WITH_CAMELLIA_128_GCM_SHA256"),
            Self::TLS_DHE_RSA_WITH_CAMELLIA_256_GCM_SHA384 => Some("TLS_DHE_RSA_WITH_CAMELLIA_256_GCM_SHA384"),
            Self::TLS_DH_RSA_WITH_CAMELLIA_128_GCM_SHA256 => Some("TLS_DH_RSA_WITH_CAMELLIA_128_GCM_SHA256"),
            Self::TLS_DH_RSA_WITH_CAMELLIA_256_GCM_SHA384 => Some("TLS_DH_RSA_WITH_CAMELLIA_256_GCM_SHA384"),
            Self::TLS_DHE_DSS_WITH_CAMELLIA_128_GCM_SHA256 => Some("TLS_DHE_DSS_WITH_CAMELLIA_128_GCM_SHA256"),
            Self::TLS_DHE_DSS_WITH_CAMELLIA_256_GCM_SHA384 => Some("TLS_DHE_DSS_WITH_CAMELLIA_256_GCM_SHA384"),
            Self::TLS_DH_DSS_WITH_CAMELLIA_128_GCM_SHA256 => Some("TLS_DH_DSS_WITH_CAMELLIA_128_GCM_SHA256"),
            Self::TLS_DH_DSS_WITH_CAMELLIA_256_GCM_SHA384 => Some("TLS_DH_DSS_WITH_CAMELLIA_256_GCM_SHA384"),
            Self::TLS_DH_anon_WITH_CAMELLIA_128_GCM_SHA256 => Some("TLS_DH_anon_WITH_CAMELLIA_128_GCM_SHA256"),
            Self::TLS_DH_anon_WITH_CAMELLIA_256_GCM_SHA384 => Some("TLS_DH_anon_WITH_CAMELLIA_256_GCM_SHA384"),
            Self::TLS_ECDHE_ECDSA_WITH_CAMELLIA_128_GCM_SHA256 => Some("TLS_ECDHE_ECDSA_WITH_CAMELLIA_128_GCM_SHA256"),
            Self::TLS_ECDHE_ECDSA_WITH_CAMELLIA_256_GCM_SHA384 => Some("TLS_ECDHE_ECDSA_WITH_CAMELLIA_256_GCM_SHA384"),
            Self::TLS_ECDH_ECDSA_WITH_CAMELLIA_128_GCM_SHA256 => Some("TLS_ECDH_ECDSA_WITH_CAMELLIA_128_GCM_SHA256"),
            Self::TLS_ECDH_ECDSA_WITH_CAMELLIA_256_GCM_SHA384 => Some("TLS_ECDH_ECDSA_WITH_CAMELLIA_256_GCM_SHA384"),
            Self::TLS_ECDHE_RSA_WITH_CAMELLIA_128_GCM_SHA256 => Some("TLS_ECDHE_RSA_WITH_CAMELLIA_128_GCM_SHA256"),
            Self::TLS_ECDHE_RSA_WITH_CAMELLIA_256_GCM_SHA384 => Some("TLS_ECDHE_RSA_WITH_CAMELLIA_256_GCM_SHA384"),
            Self::TLS_ECDH_RSA_WITH_CAMELLIA_128_GCM_SHA256 => Some("TLS_ECDH_RSA_WITH_CAMELLIA_128_GCM_SHA256"),
            Self::TLS_ECDH_RSA_WITH_CAMELLIA_256_GCM_SHA384 => Some("TLS_ECDH_RSA_WITH_CAMELLIA_256_GCM_SHA384"),
            Self::TLS_PSK_WITH_CAMELLIA_128_GCM_SHA256 => Some("TLS_PSK_WITH_CAMELLIA_128_GCM_SHA256"),
            Self::TLS_PSK_WITH_CAMELLIA_256_GCM_SHA384 => Some("TLS_PSK_WITH_CAMELLIA_256_GCM_SHA384"),
            Self::TLS_DHE_PSK_WITH_CAMELLIA_128_GCM_SHA256 => Some("TLS_DHE_PSK_WITH_CAMELLIA_128_GCM_SHA256"),
            Self::TLS_DHE_PSK_WITH_CAMELLIA_256_GCM_SHA384 => Some("TLS_DHE_PSK_WITH_CAMELLIA_256_GCM_SHA384"),
            Self::TLS_RSA_PSK_WITH_CAMELLIA_128_GCM_SHA256 => Some("TLS_RSA_PSK_WITH_CAMELLIA_128_GCM_SHA256"),
            Self::TLS_RSA_PSK_WITH_CAMELLIA_256_GCM_SHA384 => Some("TLS_RSA_PSK_WITH_CAMELLIA_256_GCM_SHA384"),
            Self::TLS_PSK_WITH_CAMELLIA_128_CBC_SHA256 => Some("TLS_PSK_WITH_CAMELLIA_128_CBC_SHA256"),
            Self::TLS_PSK_WITH_CAMELLIA_256_CBC_SHA384 => Some("TLS_PSK_WITH_CAMELLIA_256_CBC_SHA384"),
            Self::TLS_DHE_PSK_WITH_CAMELLIA_128_CBC_SHA256 => Some("TLS_DHE_PSK_WITH_CAMELLIA_128_CBC_SHA256"),
            Self::TLS_DHE_PSK_WITH_CAMELLIA_256_CBC_SHA384 => Some("TLS_DHE_PSK_WITH_CAMELLIA_256_CBC_SHA384"),
            Self::TLS_RSA_PSK_WITH_CAMELLIA_128_CBC_SHA256 => Some("TLS_RSA_PSK_WITH_CAMELLIA_128_CBC_SHA256"),
            Self::TLS_RSA_PSK_WITH_CAMELLIA_256_CBC_SHA384 => Some("TLS_RSA_PSK_WITH_CAMELLIA_256_CBC_SHA384"),
            Self::TLS_ECDHE_PSK_WITH_CAMELLIA_128_CBC_SHA256 => Some("TLS_ECDHE_PSK_WITH_CAMELLIA_128_CBC_SHA256"),
            Self::TLS_ECDHE_PSK_WITH_CAMELLIA_256_CBC_SHA384 => Some("TLS_ECDHE_PSK_WITH_CAMELLIA_256_CBC_SHA384"),
            Self::TLS_RSA_WITH_AES_128_CCM => Some("TLS_RSA_WITH_AES_128_CCM"),
            Self::TLS_RSA_WITH_AES_256_CCM => Some("TLS_RSA_WITH_AES_256_CCM"),
            Self::TLS_DHE_RSA_WITH_AES_128_CCM => Some("TLS_DHE_RSA_WITH_AES_128_CCM"),
            Self::TLS_DHE_RSA_WITH_AES_256_CCM => Some("TLS_DHE_RSA_WITH_AES_256_CCM"),
            Self::TLS_RSA_WITH_AES_128_CCM_8 => Some("TLS_RSA_WITH_AES_128_CCM_8"),
            Self::TLS_RSA_WITH_AES_256_CCM_8 => Some("TLS_RSA_WITH_AES_256_CCM_8"),
            Self::TLS_DHE_RSA_WITH_AES_128_CCM_8 => Some("TLS_DHE_RSA_WITH_AES_128_CCM_8"),
            Self::TLS_DHE_RSA_WITH_AES_256_CCM_8 => Some("TLS_DHE_RSA_WITH_AES_256_CCM_8"),
            Self::TLS_PSK_WITH_AES_128_CCM => Some("TLS_PSK_WITH_AES_128_CCM"),
            Self::TLS_PSK_WITH_AES_256_CCM => Some("TLS_PSK_WITH_AES_256_CCM"),
            Self::TLS_DHE_PSK_WITH_AES_128_CCM => Some("TLS_DHE_PSK_WITH_AES_128_CCM"),
            Self::TLS_DHE_PSK_WITH_AES_256_CCM => Some("TLS_DHE_PSK_WITH_AES_256_CCM"),
            Self::TLS_PSK_WITH_AES_128_CCM_8 => Some("TLS_PSK_WITH_AES_128_CCM_8"),
            Self::TLS_PSK_WITH_AES_256_CCM_8 => Some("TLS_PSK_WITH_AES_256_CCM_8"),
            Self::TLS_PSK_DHE_WITH_AES_128_CCM_8 => Some("TLS_PSK_DHE_WITH_AES_128_CCM_8"),
            Self::TLS_PSK_DHE_WITH_AES_256_CCM_8 => Some("TLS_PSK_DHE_WITH_AES_256_CCM_8"),
            Self::TLS_ECDHE_ECDSA_WITH_AES_128_CCM => Some("TLS_ECDHE_ECDSA_WITH_AES_128_CCM"),
            Self::TLS_ECDHE_ECDSA_WITH_AES_256_CCM => Some("TLS_ECDHE_ECDSA_WITH_AES_256_CCM"),
            Self::TLS_ECDHE_ECDSA_WITH_AES_128_CCM_8 => Some("TLS_ECDHE_ECDSA_WITH_AES_128_CCM_8"),
            Self::TLS_ECDHE_ECDSA_WITH_AES_256_CCM_8 => Some("TLS_ECDHE_ECDSA_WITH_AES_256_CCM_8"),
            Self::TLS_DHE_RSA_WITH_CHACHA20_POLY1305_SHA256 => Some("TLS_DHE_RSA_WITH_CHACHA20_POLY1305_SHA256"),
            Self::TLS_PSK_WITH_CHACHA20_POLY1305_SHA256 => Some("TLS_PSK_WITH_CHACHA20_POLY1305_SHA256"),
            Self::TLS_ECDHE_PSK_WITH_CHACHA20_POLY1305_SHA256 => Some("TLS_ECDHE_PSK_WITH_CHACHA20_POLY1305_SHA256"),
            Self::TLS_DHE_PSK_WITH_CHACHA20_POLY1305_SHA256 => Some("TLS_DHE_PSK_WITH_CHACHA20_POLY1305_SHA256"),
            Self::TLS_RSA_PSK_WITH_CHACHA20_POLY1305_SHA256 => Some("TLS_RSA_PSK_WITH_CHACHA20_POLY1305_SHA256"),
            Self::SSL_RSA_FIPS_WITH_DES_CBC_SHA => Some("SSL_RSA_FIPS_WITH_DES_CBC_SHA"),
            Self::SSL_RSA_FIPS_WITH_3DES_EDE_CBC_SHA => Some("SSL_RSA_FIPS_WITH_3DES_EDE_CBC_SHA"),
            Self::Unknown(_) => None,
        }
    }

    fn quiet(&self) -> (quiet: bool) {
        match Self::from_code(self.code()) {
            Self::TLS_NULL_WITH_NULL_NULL => false,
            Self::TLS_PSK_WITH_AES_128_GCM_SHA256 => false,
            Self::TLS_PSK_WITH_AES_256_GCM_SHA384 => false,
            Self::TLS_EMPTY_RENEGOTIATION_INFO_SCSV => false,
            Self::TLS13_AES_128_GCM_SHA256 => false,
            Self::TLS13_AES_256_GCM_SHA384 => false,
            Self::TLS13_CHACHA20_POLY1305_SHA256 => false,
            Self::TLS13_AES_128_CCM_SHA256 => false,
            Self::TLS13_AES_128_CCM_8_SHA256 => false,
            Self::TLS_ECDHE_ECDSA_WITH_AES_128_CBC_SHA => false,
            Self::TLS_ECDHE_ECDSA_WITH_AES_256_CBC_SHA => false,
            Self::TLS_ECDHE_RSA_WITH_AES_128_CBC_SHA => false,
            Self::TLS_ECDHE_RSA_WITH_AES_256_CBC_SHA => false,
            Self::TLS_ECDHE_ECDSA_WITH_AES_128_CBC_SHA256 => false,
            Self::TLS_ECDHE_ECDSA_WITH_AES_256_CBC_SHA384 => false,
            Self::TLS_ECDHE_RSA_WITH_AES_128_CBC_SHA256 => false,
            Self::TLS_ECDHE_RSA_WITH_AES_256_CBC_SHA384 => false,
            Self::TLS_ECDHE_ECDSA_WITH_AES_128_GCM_SHA256 => false,
            Self::TLS_ECDHE_ECDSA_WITH_AES_256_GCM_SHA384 => false,
            Self::TLS_ECDHE_RSA_WITH_AES_128_GCM_SHA256 => false,
            Self::TLS_ECDHE_RSA_WITH_AES_256_GCM_SHA384 => false,
            Self::TLS_ECDHE_RSA_WITH_CHACHA20_POLY1305_SHA256 => false,
            Self::TLS_ECDHE_ECDSA_WITH_CHACHA20_POLY1305_SHA256 => false,
            Self::Unknown(_) => false,
            _ => true,
        }
    }
}

impl From<u16> for CipherSuite {
    fn from(code: u16) -> (v: Self) {
        Self::from_code(code)
    }
}

impl FromSpecImpl<u16> for CipherSuite {
    open spec fn obeys_from_spec() -> bool {
        true
    }

    open spec fn from_spec(code: u16) -> Self {
        Self::spec_from_code(code)
    }
}

impl From<CipherSuite> for u16 {
    fn from(value: CipherSuite) -> (code: Self) {
        value.code()
    }
}

impl FromSpecImpl<CipherSuite> for u16 {
    open spec fn obeys_from_spec() -> bool {
        true
    }

    open spec fn from_spec(value: CipherSuite) -> Self {
        value.spec_code()
    }
}

/// Two values are equal when they stand for the same code.
impl PartialEq for CipherSuite {
    fn eq(&self, other: &Self) -> (equal: bool) {
        self.code() == other.code()
    }
}

impl PartialEqSpecImpl for CipherSuite {
    open spec fn obeys_eq_spec() -> bool {
        true
    }

    open spec fn eq_spec(&self, other: &Self) -> bool {
        self.spec_code() == other.spec_code()
    }
}

impl Eq for CipherSuite {}

} // verus!
