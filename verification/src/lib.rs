//! Remote attestation for TLS: the attestation messages and their wire
//! form, the checks of TPM quote reports, and the client's answer to a
//! request for authentication with attestation.

pub mod error;
pub mod msgs;
pub mod text;
pub mod attestation;
pub mod crypto;
pub mod client;
