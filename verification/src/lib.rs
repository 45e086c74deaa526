//! Remote-attestation helpers for an enclave: a DER writer for the
//! self-signed ECDSA certificate that carries an attestation payload,
//! the parsing of the secure module's attestation response, and the
//! checking of an attestation report against its signing certificate.

pub mod der;
pub mod cert;
pub mod trusted;
pub mod attestation;
pub mod report;
pub mod proxy;

pub use cert::{gen_ecc_cert, gen_ecc_cert_at, ring_key_gen_pcks_8, CERTEXPIRYDAYS};
pub use trusted::P256KeyPair;
pub use attestation::{resolve_the_response, verify_the_certificate};
pub use report::verify_cert;
pub use proxy::ServerAuth;
