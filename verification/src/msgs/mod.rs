pub mod codec;
pub mod tpm_attestation;
