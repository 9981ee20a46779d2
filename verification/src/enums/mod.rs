//! The protocol registries.

pub mod alert;
pub mod certificate_type;
pub mod cipher_suite;
pub mod compression;
pub mod content;
pub mod ech;
pub mod handshake;
pub mod hash_algorithm;
pub mod signature_algorithm;
pub mod signature_scheme;
pub mod version;

pub use alert::AlertDescription;
pub use certificate_type::CertificateType;
pub use cipher_suite::CipherSuite;
pub use compression::CertificateCompressionAlgorithm;
pub use content::ContentType;
pub use ech::EchClientHelloType;
pub use handshake::HandshakeType;
pub use hash_algorithm::HashAlgorithm;
pub use signature_algorithm::SignatureAlgorithm;
pub use signature_scheme::SignatureScheme;
pub use version::ProtocolVersion;
