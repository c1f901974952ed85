use vstd::prelude::*;

verus! {

/// A message could not be decoded.
#[derive(Debug, Clone, Copy, PartialEq, Eq)]
pub enum InvalidMessage {
    /// The input ended before the named field could be read.
    MissingData(&'static str),
}

/// Errors of the attestation extension.
#[derive(Debug, Clone, PartialEq, Eq)]
pub enum Error {
    /// A message could not be decoded.
    InvalidMessage(InvalidMessage),
    /// An attestation report could not be produced.
    AttestationGenerationFailed(String),
    /// An attestation report could not be checked.
    AttestationVerificationFailed(String),
}

} // verus!
