//! Certificate trust and revocation checking for TLS, with the wire
//! enumerations and the signature-scheme policy it rests on.

pub mod bs_debug;
pub mod codec;
pub mod enums;
pub mod error;
pub mod registry;
pub mod text;
pub mod trust;
