//! The registry of signature schemes, and what TLS 1.3 accepts of it.

use crate::codec::Codec;
use crate::enums::hash_algorithm::HashAlgorithm;
use crate::enums::signature_algorithm::SignatureAlgorithm;
use crate::registry::ProtocolEnum;
use vstd::prelude::*;
use vstd::std_specs::cmp::PartialEqSpecImpl;
use vstd::std_specs::convert::FromSpecImpl;

verus! {

/// A signature scheme. In the schemes that came before TLS 1.3 the high
/// byte of the code names a hash and the low byte a signature algorithm;
/// the later schemes have codes that do not split that way.
/// `Unknown` holds a code that has no name here.
#[allow(non_camel_case_types)]
#[non_exhaustive]
#[derive(Debug, Clone, Copy)]
pub enum SignatureScheme {
    RSA_PKCS1_SHA1,
    ECDSA_SHA1_Legacy,
    RSA_PKCS1_SHA256,
    ECDSA_NISTP256_SHA256,
    RSA_PKCS1_SHA384,
    ECDSA_NISTP384_SHA384,
    RSA_PKCS1_SHA512,
    ECDSA_NISTP521_SHA512,
    RSA_PSS_SHA256,
    RSA_PSS_SHA384,
    RSA_PSS_SHA512,
    ED25519,
    ED448,
    ML_DSA_44,
    ML_DSA_65,
    ML_DSA_87,
    Unknown(u16),
}

impl ProtocolEnum for SignatureScheme {
    type Code = u16;

    open spec fn spec_registry() -> &'static str {
        "SignatureScheme"
    }

    open spec fn spec_code(self) -> u16 {
        match self {
            Self::RSA_PKCS1_SHA1 => 0x0201,
            Self::ECDSA_SHA1_Legacy => 0x0203,
            Self::RSA_PKCS1_SHA256 => 0x0401,
            Self::ECDSA_NISTP256_SHA256 => 0x0403,
            Self::RSA_PKCS1_SHA384 => 0x0501,
            Self::ECDSA_NISTP384_SHA384 => 0x0503,
            Self::RSA_PKCS1_SHA512 => 0x0601,
            Self::ECDSA_NISTP521_SHA512 => 0x0603,
            Self::RSA_PSS_SHA256 => 0x0804,
            Self::RSA_PSS_SHA384 => 0x0805,
            Self::RSA_PSS_SHA512 => 0x0806,
            Self::ED25519 => 0x0807,
            Self::ED448 => 0x0808,
            Self::ML_DSA_44 => 0x0904,
            Self::ML_DSA_65 => 0x0905,
            Self::ML_DSA_87 => 0x0906,
            Self::Unknown(code) => code,
        }
    }

    open spec fn spec_from_code(code: u16) -> Self {
        match code {
            0x0201 => Self::RSA_PKCS1_SHA1,
            0x0203 => Self::ECDSA_SHA1_Legacy,
            0x0401 => Self::RSA_PKCS1_SHA256,
            0x0403 => Self::ECDSA_NISTP256_SHA256,
            0x0501 => Self::RSA_PKCS1_SHA384,
            0x0503 => Self::ECDSA_NISTP384_SHA384,
            0x0601 => Self::RSA_PKCS1_SHA512,
            0x0603 => Self::ECDSA_NISTP521_SHA512,
            0x0804 => Self::RSA_PSS_SHA256,
            0x0805 => Self::RSA_PSS_SHA384,
            0x0806 => Self::RSA_PSS_SHA512,
            0x0807 => Self::ED25519,
            0x0808 => Self::ED448,
            0x0904 => Self::ML_DSA_44,
            0x0905 => Self::ML_DSA_65,
            0x0906 => Self::ML_DSA_87,
            _ => Self::Unknown(code),
        }
    }

    open spec fn spec_as_str(self) -> Option<&'static str> {
        match Self::spec_from_code(self.spec_code()) {
            Self::RSA_PKCS1_SHA1 => Some("RSA_PKCS1_SHA1"),
            Self::ECDSA_SHA1_Legacy => Some("ECDSA_SHA1_Legacy"),
            Self::RSA_PKCS1_SHA256 => Some("RSA_PKCS1_SHA256"),
            Self::ECDSA_NISTP256_SHA256 => Some("ECDSA_NISTP256_SHA256"),
            Self::RSA_PKCS1_SHA384 => Some("RSA_PKCS1_SHA384"),
            Self::ECDSA_NISTP384_SHA384 => Some("ECDSA_NISTP384_SHA384"),
            Self::RSA_PKCS1_SHA512 => Some("RSA_PKCS1_SHA512"),
            Self::ECDSA_NISTP521_SHA512 => Some("ECDSA_NISTP521_SHA512"),
            Self::RSA_PSS_SHA256 => Some("RSA_PSS_SHA256"),
            Self::RSA_PSS_SHA384 => Some("RSA_PSS_SHA384"),
            Self::RSA_PSS_SHA512 => Some("RSA_PSS_SHA512"),
            Self::ED25519 => Some("ED25519"),
            Self::ED448 => Some("ED448"),
            Self::ML_DSA_44 => Some("ML_DSA_44"),
            Self::ML_DSA_65 => Some("ML_DSA_65"),
            Self::ML_DSA_87 => Some("ML_DSA_87"),
            Self::Unknown(_) => None,
        }
    }

    open spec fn spec_quiet(self) -> bool {
        false
    }

    proof fn lemma_code_of_decoded(code: u16) {
    }

    proof fn lemma_goes_by_code(a: Self, b: Self) {
    }

    fn registry() -> (name: &'static str) {
        "SignatureScheme"
    }

    fn code(self) -> (code: u16) {
        match self {
            Self::RSA_PKCS1_SHA1 => 0x0201,
            Self::ECDSA_SHA1_Legacy => 0x0203,
            Self::RSA_PKCS1_SHA256 => 0x0401,
            Self::ECDSA_NISTP256_SHA256 => 0x0403,
            Self::RSA_PKCS1_SHA384 => 0x0501,
            Self::ECDSA_NISTP384_SHA384 => 0x0503,
            Self::RSA_PKCS1_SHA512 => 0x0601,
            Self::ECDSA_NISTP521_SHA512 => 0x0603,
            Self::RSA_PSS_SHA256 => 0x0804,
            Self::RSA_PSS_SHA384 => 0x0805,
            Self::RSA_PSS_SHA512 => 0x0806,
            Self::ED25519 => 0x0807,
            Self::ED448 => 0x0808,
            Self::ML_DSA_44 => 0x0904,
            Self::ML_DSA_65 => 0x0905,
            Self::ML_DSA_87 => 0x0906,
            Self::Unknown(code) => code,
        }
    }

    fn from_code(code: u16) -> (v: Self) {
        match code {
            0x0201 => Self::RSA_PKCS1_SHA1,
            0x0203 => Self::ECDSA_SHA1_Legacy,
            0x0401 => Self::RSA_PKCS1_SHA256,
            0x0403 => Self::ECDSA_NISTP256_SHA256,
            0x0501 => Self::RSA_PKCS1_SHA384,
            0x0503 => Self::ECDSA_NISTP384_SHA384,
            0x0601 => Self::RSA_PKCS1_SHA512,
            0x0603 => Self::ECDSA_NISTP521_SHA512,
            0x0804 => Self::RSA_PSS_SHA256,
            0x0805 => Self::RSA_PSS_SHA384,
            0x0806 => Self::RSA_PSS_SHA512,
            0x0807 => Self::ED25519,
            0x0808 => Self::ED448,
            0x0904 => Self::ML_DSA_44,
            0x0905 => Self::ML_DSA_65,
            0x0906 => Self::ML_DSA_87,
            _ => Self::Unknown(code),
        }
    }

    fn as_str(&self) -> (name: Option<&'static str>) {
        match Self::from_code(self.code()) {
            Self::RSA_PKCS1_SHA1 => Some("RSA_PKCS1_SHA1"),
            Self::ECDSA_SHA1_Legacy => Some("ECDSA_SHA1_Legacy"),
            Self::RSA_PKCS1_SHA256 => Some("RSA_PKCS1_SHA256"),
            Self::ECDSA_NISTP256_SHA256 => Some("ECDSA_NISTP256_SHA256"),
            Self::RSA_PKCS1_SHA384 => Some("RSA_PKCS1_SHA384"),
            Self::ECDSA_NISTP384_SHA384 => Some("ECDSA_NISTP384_SHA384"),
            Self::RSA_PKCS1_SHA512 => Some("RSA_PKCS1_SHA512"),
            Self::ECDSA_NISTP521_SHA512 => Some("ECDSA_NISTP521_SHA512"),
            Self::RSA_PSS_SHA256 => Some("RSA_PSS_SHA256"),
            Self::RSA_PSS_SHA384 => Some("RSA_PSS_SHA384"),
            Self::RSA_PSS_SHA512 => Some("RSA_PSS_SHA512"),
            Self::ED25519 => Some("ED25519"),
            Self::ED448 => Some("ED448"),
            Self::ML_DSA_44 => Some("ML_DSA_44"),
            Self::ML_DSA_65 => Some("ML_DSA_65"),
            Self::ML_DSA_87 => Some("ML_DSA_87"),
            Self::Unknown(_) => None,
        }
    }

    fn quiet(&self) -> (quiet: bool) {
        false
    }
}

impl From<u16> for SignatureScheme {
    fn from(code: u16) -> (v: Self) {
        Self::from_code(code)
    }
}

impl FromSpecImpl<u16> for SignatureScheme {
    open spec fn obeys_from_spec() -> bool {
        true
    }

    open spec fn from_spec(code: u16) -> Self {
        Self::spec_from_code(code)
    }
}

impl From<SignatureScheme> for u16 {
    fn from(value: SignatureScheme) -> (code: Self) {
        value.code()
    }
}

impl FromSpecImpl<SignatureScheme> for u16 {
    open spec fn obeys_from_spec() -> bool {
        true
    }

    open spec fn from_spec(value: SignatureScheme) -> Self {
        value.spec_code()
    }
}

/// Two values are equal when they stand for the same code.
impl PartialEq for SignatureScheme {
    fn eq(&self, other: &Self) -> (equal: bool) {
        self.code() == other.code()
    }
}

impl PartialEqSpecImpl for SignatureScheme {
    open spec fn obeys_eq_spec() -> bool {
        true
    }

    open spec fn eq_spec(&self, other: &Self) -> bool {
        self.spec_code() == other.spec_code()
    }
}

impl Eq for SignatureScheme {}

impl SignatureScheme {
    /// The two bytes of the code, high byte first.
    pub fn to_array(self) -> (bytes: [u8; 2])
        ensures
            bytes@ == self.wire(),
    {
        let code: u16 = self.code();
        let bytes: [u8; 2] = [(code / 256) as u8, (code % 256) as u8];
        assert(bytes@ =~= self.wire());
        bytes
    }

    /// The kind of key that a scheme signs with, for the schemes that name
    /// one: RSA for PKCS#1 and PSS alike, ECDSA, and the two Edwards curves.
    /// Every other code gives `Unknown(0)`, never the scheme's own code: a
    /// code that has no name here says nothing of the key, and neither do
    /// the post-quantum schemes. The class goes by the code, however the
    /// value was made: `Unknown(0x0401)` is `RSA_PKCS1_SHA256`.
    pub open spec fn spec_algorithm(&self) -> SignatureAlgorithm {
        match Self::spec_from_code(self.spec_code()) {
            Self::RSA_PKCS1_SHA1
            | Self::RSA_PKCS1_SHA256
            | Self::RSA_PKCS1_SHA384
            | Self::RSA_PKCS1_SHA512
            | Self::RSA_PSS_SHA256
            | Self::RSA_PSS_SHA384
            | Self::RSA_PSS_SHA512 => SignatureAlgorithm::RSA,
            Self::ECDSA_SHA1_Legacy
            | Self::ECDSA_NISTP256_SHA256
            | Self::ECDSA_NISTP384_SHA384
            | Self::ECDSA_NISTP521_SHA512 => SignatureAlgorithm::ECDSA,
            Self::ED25519 => SignatureAlgorithm::ED25519,
            Self::ED448 => SignatureAlgorithm::ED448,
            _ => SignatureAlgorithm::Unknown(0),
        }
    }

    /// The hash that the high byte of the code names.
    pub open spec fn spec_hash_byte(self) -> HashAlgorithm {
        HashAlgorithm::spec_from_code((self.spec_code() / 256) as u8)
    }

    /// The signature algorithm that the low byte of the code names.
    pub open spec fn spec_sign_byte(self) -> SignatureAlgorithm {
        SignatureAlgorithm::spec_from_code((self.spec_code() % 256) as u8)
    }

    /// Whether TLS 1.3 accepts the scheme for its own signatures. The rule
    /// lists what is refused and lets everything else through, so that a
    /// scheme registered later is accepted without a change here. Refused
    /// are the codes whose high byte names no hash, MD5, SHA-1 or SHA-224,
    /// and those whose low byte names anonymous, RSA (which is PKCS#1 here,
    /// not PSS) or DSA.
    pub open spec fn spec_supported_in_tls13(&self) -> bool {
        let hash = self.spec_hash_byte();
        let sign = self.spec_sign_byte();
        &&& !(hash is NONE || hash is MD5 || hash is SHA1 || hash is SHA224)
        &&& !(sign is Anonymous || sign is RSA || sign is DSA)
    }

    /// The kind of key that the scheme signs with.
    #[verifier::when_used_as_spec(spec_algorithm)]
    pub fn algorithm(&self) -> (algorithm: SignatureAlgorithm)
        ensures
            algorithm == self.spec_algorithm(),
    {
        match Self::from_code(self.code()) {
            Self::RSA_PKCS1_SHA1
            | Self::RSA_PKCS1_SHA256
            | Self::RSA_PKCS1_SHA384
            | Self::RSA_PKCS1_SHA512
            | Self::RSA_PSS_SHA256
            | Self::RSA_PSS_SHA384
            | Self::RSA_PSS_SHA512 => SignatureAlgorithm::RSA,
            Self::ECDSA_SHA1_Legacy
            | Self::ECDSA_NISTP256_SHA256
            | Self::ECDSA_NISTP384_SHA384
            | Self::ECDSA_NISTP521_SHA512 => SignatureAlgorithm::ECDSA,
            Self::ED25519 => SignatureAlgorithm::ED25519,
            Self::ED448 => SignatureAlgorithm::ED448,
            _ => SignatureAlgorithm::Unknown(0),
        }
    }

    /// Whether a particular `SignatureScheme` is allowed for TLS protocol
    /// signatures in TLS 1.3.
    ///
    /// This prevents (eg) RSA_PKCS1_SHA256 being offered or accepted, even if
    /// a verifier supports it for other protocol versions. See RFC 8446,
    /// section 4.2.3.
    #[verifier::when_used_as_spec(spec_supported_in_tls13)]
    pub fn supported_in_tls13(&self) -> (supported: bool)
        ensures
            supported == self.spec_supported_in_tls13(),
    {
        let bytes = self.to_array();
        let hash: u8 = bytes[0];
        let sign: u8 = bytes[1];

        // Hashes that TLS 1.3 has retired, and the codes of TLS 1.2 whose
        // high byte is one of them.
        match HashAlgorithm::from(hash) {
            HashAlgorithm::NONE
            | HashAlgorithm::MD5
            | HashAlgorithm::SHA1
            | HashAlgorithm::SHA224 => return false,
            _ => (),
        };

        // RSA here is RSASSA-PKCS1-v1_5, which TLS 1.3 does not sign with;
        // DSA is gone as well.
        !matches!(
            SignatureAlgorithm::from(sign),
            SignatureAlgorithm::Anonymous | SignatureAlgorithm::RSA | SignatureAlgorithm::DSA
        )
    }
}

/// For each of the 65536 codes both classifications are defined: the kind of
/// key is one of five answers, and it is `Unknown(0)` for every code that has
/// no name.
pub proof fn lemma_algorithm_of_every_code(code: u16)
    ensures
        ({
            let algorithm = SignatureScheme::spec_from_code(code).spec_algorithm();
            ||| algorithm == SignatureAlgorithm::RSA
            ||| algorithm == SignatureAlgorithm::ECDSA
            ||| algorithm == SignatureAlgorithm::ED25519
            ||| algorithm == SignatureAlgorithm::ED448
            ||| algorithm == SignatureAlgorithm::Unknown(0)
        }),
        SignatureScheme::spec_from_code(code) is Unknown ==> SignatureScheme::spec_from_code(
            code,
        ).spec_algorithm() == SignatureAlgorithm::Unknown(0),
{
    SignatureScheme::lemma_code_of_decoded(code);
}

/// The kind of key goes by the code and by nothing else: two values that
/// stand for the same code are of the same kind, however they were made.
pub proof fn lemma_algorithm_goes_by_code(a: SignatureScheme, b: SignatureScheme)
    requires
        a.spec_code() == b.spec_code(),
    ensures
        a.spec_algorithm() == b.spec_algorithm(),
{
}

/// What TLS 1.3 accepts, said of the two bytes alone: the high byte is past
/// the four refused hashes and the low byte past the three refused
/// algorithms. So a code is accepted unless one of its bytes is on a list,
/// whether or not the code has a name.
pub proof fn lemma_tls13_refuses_by_byte(scheme: SignatureScheme)
    ensures
        scheme.spec_supported_in_tls13() <==> (scheme.spec_code() / 256 >= 4
            && scheme.spec_code() % 256 >= 3),
{
}

/// The policy looks at the code and at nothing else: two values that stand
/// for the same code get the same answer.
pub proof fn lemma_tls13_goes_by_code(a: SignatureScheme, b: SignatureScheme)
    requires
        a.spec_code() == b.spec_code(),
    ensures
        a.spec_supported_in_tls13() == b.spec_supported_in_tls13(),
{
}

} // verus!
