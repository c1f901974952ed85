//! Client handshake details: the server's certificate, what the client
//! offered in its hello, and how it answers a request for client
//! authentication together with an attestation report.
use vstd::prelude::*;
use vstd::string::*;
use crate::attestation::{AttestationConfig, AttestationRequest, AttestationResponse, AttestationType};
use crate::error::Error;

verus! {

/// The server's certificate chain (DER certificates) and its OCSP response.
pub struct ServerCertDetails {
    pub cert_chain: Vec<Vec<u8>>,
    pub ocsp_response: Vec<u8>,
}

impl ServerCertDetails {
    pub fn new(cert_chain: Vec<Vec<u8>>, ocsp_response: Vec<u8>) -> (r: Self)
        ensures
            r.cert_chain == cert_chain,
            r.ocsp_response == ocsp_response,
    {
        Self { cert_chain, ocsp_response }
    }

    /// The same details, owning their data.
    pub fn into_owned(self) -> (r: Self)
        ensures
            r.cert_chain == self.cert_chain,
            r.ocsp_response == self.ocsp_response,
    {
        let Self { cert_chain, ocsp_response } = self;
        ServerCertDetails { cert_chain, ocsp_response }
    }
}

/// What the client offered in its hello.
pub struct ClientHelloDetails {
    /// The ALPN protocol names offered.
    pub alpn_protocols: Vec<Vec<u8>>,
    /// The extension types sent.
    pub sent_extensions: Vec<u16>,
    pub extension_order_seed: u16,
    pub offered_cert_compression: bool,
}

/// Whether `x` occurs in `s`.
fn contains_u16(s: &[u16], x: u16) -> (r: bool)
    ensures
        r == s@.contains(x),
{
    let mut i: usize = 0;
    while i < s.len()
        invariant
            i <= s@.len(),
            forall|j: int| 0 <= j < i ==> s@[j] != x,
        decreases s@.len() - i,
    {
        if s[i] == x {
            return true;
        }
        i = i + 1;
    }
    false
}

/// Whether some extension type in `received` was neither sent nor allowed
/// unsolicited.
pub open spec fn has_unsolicited(received: Seq<u16>, sent: Seq<u16>, allowed: Seq<u16>) -> bool {
    exists|i: int| 0 <= i < received.len() && !sent.contains(#[trigger] received[i]) && !allowed.contains(
        received[i],
    )
}

impl ClientHelloDetails {
    pub fn new(alpn_protocols: Vec<Vec<u8>>, extension_order_seed: u16) -> (r: Self)
        ensures
            r.alpn_protocols == alpn_protocols,
            r.sent_extensions@.len() == 0,
            r.extension_order_seed == extension_order_seed,
            !r.offered_cert_compression,
    {
        Self {
            alpn_protocols,
            sent_extensions: Vec::new(),
            extension_order_seed,
            offered_cert_compression: false,
        }
    }

    /// Whether the server answered with an extension type (given by
    /// `received_exts`) that the client neither sent nor allows unsolicited.
    pub fn server_sent_unsolicited_extensions(
        &self,
        received_exts: &[u16],
        allowed_unsolicited: &[u16],
    ) -> (r: bool)
        ensures
            r == has_unsolicited(received_exts@, self.sent_extensions@, allowed_unsolicited@),
    {
        let mut i: usize = 0;
        while i < received_exts.len()
            invariant
                i <= received_exts@.len(),
                forall|j: int|
                    0 <= j < i ==> self.sent_extensions@.contains(#[trigger] received_exts@[j])
                        || allowed_unsolicited@.contains(received_exts@[j]),
            decreases received_exts@.len() - i,
        {
            let ext_type = received_exts[i];
            if !contains_u16(self.sent_extensions.as_slice(), ext_type) && !contains_u16(
                allowed_unsolicited,
                ext_type,
            ) {
                return true;
            }
            i = i + 1;
        }
        false
    }
}

/// What the certificate resolver and the signing key gave for client
/// authentication: the certificate chain and the signature scheme chosen.
pub struct ClientCredential {
    pub cert_chain: Vec<Vec<u8>>,
    pub signature_scheme: u16,
}

/// How the client answers a request for client authentication.
pub enum ClientAuthDetails {
    /// Send an empty `Certificate` and no `CertificateVerify`.
    Empty { auth_context_tls13: Option<Vec<u8>> },
    /// Send a non-empty `Certificate` and a `CertificateVerify`, with the
    /// attestation report where one was produced.
    Verify {
        credential: ClientCredential,
        auth_context_tls13: Option<Vec<u8>>,
        /// The certificate compression algorithm, if any.
        compressor: Option<u16>,
        attestation_response: Option<AttestationResponse>,
    },
}

/// What to do about the server's attestation request.
pub enum AttestationStep {
    /// The client's generator is of another technology: send no report.
    Skip,
    /// Produce a report over the linking hash.
    Generate,
    /// A report is due but the linking hash could not be computed.
    MissingLinkingInputs,
}

/// The message for a report that is due without a linking hash.
pub open spec fn missing_linking_inputs_message() -> Seq<char> {
    "Cannot compute linking hash: missing transcript, DHE secret, or hash provider"@
}

/// What to do about the server's attestation request, given the technology
/// of the client's generator and whether the linking hash is available.
pub fn attestation_step(
    generator_type: AttestationType,
    server_request: &AttestationRequest,
    linking_hash_available: bool,
) -> (r: AttestationStep)
    ensures
        generator_type != server_request.attestation_type ==> r is Skip,
        generator_type == server_request.attestation_type && linking_hash_available ==> r is Generate,
        generator_type == server_request.attestation_type && !linking_hash_available
            ==> r is MissingLinkingInputs,
{
    if generator_type.0 == server_request.attestation_type.0 {
        if linking_hash_available {
            AttestationStep::Generate
        } else {
            AttestationStep::MissingLinkingInputs
        }
    } else {
        AttestationStep::Skip
    }
}

/// The attestation report to send, given the step decided and, for the
/// `Generate` step, what the generator returned: no report for `Skip`, the
/// missing-inputs error for `MissingLinkingInputs`, and for `Generate` the
/// generated report or the generator's error.
pub fn attestation_outcome(
    step: AttestationStep,
    generated: Option<Result<AttestationResponse, Error>>,
) -> (r: Result<Option<AttestationResponse>, Error>)
    requires
        step is Generate <==> generated is Some,
    ensures
        step is Skip ==> r matches Ok(None),
        step is MissingLinkingInputs ==> (r matches Err(Error::AttestationGenerationFailed(m))
            && m@ == missing_linking_inputs_message()),
        generated matches Some(Ok(resp)) ==> r == Ok::<Option<AttestationResponse>, Error>(
            Some(resp),
        ),
        generated matches Some(Err(e)) ==> r == Err::<Option<AttestationResponse>, Error>(e),
{
    match step {
        AttestationStep::Skip => Ok(None),
        AttestationStep::Generate => match generated {
            Some(Ok(resp)) => Ok(Some(resp)),
            Some(Err(e)) => Err(e),
            None => Ok(None),
        },
        AttestationStep::MissingLinkingInputs => Err(
            Error::AttestationGenerationFailed(
                String::from_str(
                    "Cannot compute linking hash: missing transcript, DHE secret, or hash provider",
                ),
            ),
        ),
    }
}

/// Whether `result` is an outcome that the generator of `cfg` may give for a
/// report over the request data of `req` and the linking hash `h`.
pub open spec fn generated_over(
    cfg: &AttestationConfig,
    req: &AttestationRequest,
    h: &[u8],
    result: Result<AttestationResponse, Error>,
) -> bool {
    exists|d: &[u8]| d@ == req.data@ && #[trigger] cfg.report_generator.generates(d, h, &result)
}

/// What the answer `r` carries of the attestation, where the client has a
/// credential, attestation settings `cfg` and the server's request `req`: no
/// report where the generator is of another technology; the missing-inputs
/// error where it is of the requested technology and there is no linking
/// hash; and otherwise the report or the error that the generator gave for
/// the request data and the linking hash.
pub open spec fn attestation_answer_holds(
    cfg: &AttestationConfig,
    req: &AttestationRequest,
    linking_hash: Option<&[u8]>,
    r: Result<ClientAuthDetails, Error>,
) -> bool {
    if cfg.report_generator.spec_attestation_type() != req.attestation_type {
        r matches Ok(ClientAuthDetails::Verify { attestation_response: None, .. })
    } else {
        match linking_hash {
            None => r matches Err(Error::AttestationGenerationFailed(m)) && m@
                == missing_linking_inputs_message(),
            Some(h) => match r {
                Ok(ClientAuthDetails::Verify { attestation_response: Some(resp), .. }) => {
                    generated_over(cfg, req, h, Ok::<AttestationResponse, Error>(resp))
                },
                Err(e) => generated_over(cfg, req, h, Err::<AttestationResponse, Error>(e)),
                _ => false,
            },
        }
    }
}

impl ClientAuthDetails {
    /// The answer to a request for client authentication. Without a
    /// credential the client sends an empty certificate. With one it sends
    /// it, and where both its attestation settings and a server attestation
    /// request are present and its generator is of the requested
    /// technology, a report over the server's request data and the linking
    /// hash. `linking_hash` is the hash that binds the report to the
    /// handshake, computed from the transcript hash, the DHE secret and the
    /// server's nonce where all three inputs are available.
    pub fn resolve(
        credential: Option<ClientCredential>,
        auth_context_tls13: Option<Vec<u8>>,
        compressor: Option<u16>,
        attestation_config: Option<&AttestationConfig>,
        server_attestation_request: Option<&AttestationRequest>,
        linking_hash: Option<&[u8]>,
    ) -> (r: Result<Self, Error>)
        ensures
            credential is None ==> (r matches Ok(ClientAuthDetails::Empty { auth_context_tls13: a })
                && a == auth_context_tls13),
            credential matches Some(c) ==> (r is Ok ==> (r matches Ok(
                ClientAuthDetails::Verify { credential: c2, auth_context_tls13: a, compressor: z, .. },
            ) && c2 == c && a == auth_context_tls13 && z == compressor)),
            credential is Some && (attestation_config is None || server_attestation_request is None)
                ==> r matches Ok(ClientAuthDetails::Verify { attestation_response: None, .. }),
            r is Err ==> credential is Some && attestation_config is Some
                && server_attestation_request is Some,
            r is Err && linking_hash is None ==> (r matches Err(
                Error::AttestationGenerationFailed(m),
            ) && m@ == missing_linking_inputs_message()),
            credential is Some ==> (attestation_config matches Some(cfg) ==> (
            server_attestation_request matches Some(req) ==> attestation_answer_holds(
                cfg,
                req,
                linking_hash,
                r,
            ))),
            r matches Ok(ClientAuthDetails::Verify { attestation_response: Some(_), .. })
                ==> attestation_config is Some && server_attestation_request is Some
                && linking_hash is Some,
    {
        match credential {
            Some(credential) => {
                let attestation_response = match (attestation_config, server_attestation_request) {
                    (Some(config), Some(server_request)) => {
                        let generator_type = config.report_generator.get_attestation_type();
                        let step = attestation_step(
                            generator_type,
                            server_request,
                            linking_hash.is_some(),
                        );
                        let generated = match (&step, linking_hash) {
                            (AttestationStep::Generate, Some(h)) => Some(
                                config.report_generator.generate_report(
                                    server_request.data.as_slice(),
                                    h,
                                ),
                            ),
                            _ => None,
                        };
                        attestation_outcome(step, generated)?
                    },
                    _ => None,
                };
                Ok(ClientAuthDetails::Verify {
                    credential,
                    auth_context_tls13,
                    compressor,
                    attestation_response,
                })
            },
            None => Ok(ClientAuthDetails::Empty { auth_context_tls13 }),
        }
    }
}

} // verus!
