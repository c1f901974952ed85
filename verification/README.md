# tls_attestation

Remote attestation for a TLS handshake, verified with Verus.

- `src/msgs/codec.rs`: big-endian integers and length-prefixed byte strings,
  a reader over a byte buffer, and the laws that reading gives back what was
  written.
- `src/attestation/mod.rs`: attestation technologies, the attestation request
  and response with their wire form, and the report generator and verifier
  roles.
- `src/attestation/tpm.rs`: the checks of a TPM quote report (framing, linking
  hash, RSA-PSS signature of the quote, PCR digest) and the assembly of a report.
- `src/msgs/tpm_attestation.rs`: TPM request and response messages and a mock
  generator and verifier.
- `src/client/common.rs`: client handshake details and the answer to a request
  for client authentication with an attestation report.
- `src/crypto.rs`: the calls into `subtle`, `sha2` and `rsa`, with their
  contracts.
- `src/text.rs`: numbers as hexadecimal and decimal text.
- `app/lib.rs`: the TPM device side (`tss-esapi`): producing quotes,
  unmarshalling received TPM structures, and the TPM report generator and
  verifier built on the library's checks.
