use std::sync::Arc;
use tls_attestation::attestation::{
    AttestationConfig, AttestationReportGenerator, AttestationReportVerifier, AttestationRequest,
    AttestationResponse, AttestationType,
};
use tls_attestation::client::common::{
    attestation_outcome, attestation_step, AttestationStep, ClientAuthDetails, ClientCredential, ClientHelloDetails,
    ServerCertDetails,
};
use tls_attestation::error::Error;

struct EchoGenerator(AttestationType);

impl AttestationReportGenerator for EchoGenerator {
    fn spec_attestation_type(&self) -> AttestationType {
        self.0
    }

    fn generates(&self, nonce: &[u8], tech_specific_data: &[u8], result: &Result<AttestationResponse, Error>) -> bool {
        matches!(result, Ok(r) if r.report == nonce && r.signature == tech_specific_data)
    }

    fn get_attestation_type(&self) -> AttestationType {
        self.0
    }

    fn generate_report(&self, nonce: &[u8], tech_specific_data: &[u8]) -> Result<AttestationResponse, Error> {
        Ok(AttestationResponse::new(nonce.to_vec(), tech_specific_data.to_vec(), vec![], self.0))
    }
}

struct FailingGenerator;

impl AttestationReportGenerator for FailingGenerator {
    fn spec_attestation_type(&self) -> AttestationType {
        AttestationType::tpm()
    }

    fn generates(&self, _: &[u8], _: &[u8], result: &Result<AttestationResponse, Error>) -> bool {
        result.is_err()
    }

    fn get_attestation_type(&self) -> AttestationType {
        AttestationType::tpm()
    }

    fn generate_report(&self, _: &[u8], _: &[u8]) -> Result<AttestationResponse, Error> {
        Err(Error::AttestationGenerationFailed("no device".to_string()))
    }
}

struct AcceptAll;

impl AttestationReportVerifier for AcceptAll {
    fn get_attestation_type(&self) -> AttestationType {
        AttestationType::tpm()
    }

    fn verify_report(&self, _: &AttestationResponse, _: &[u8]) -> Result<bool, Error> {
        Ok(true)
    }
}

fn config(generator: Arc<dyn AttestationReportGenerator>) -> AttestationConfig {
    AttestationConfig {
        request: AttestationRequest::new(vec![1; 32], AttestationType::tpm(), vec![1, 2, 4, 8]),
        verifier: Arc::new(AcceptAll),
        report_generator: generator,
    }
}

fn credential() -> ClientCredential {
    ClientCredential { cert_chain: vec![vec![0x30, 0x82]], signature_scheme: 0x0804 }
}

#[test]
fn server_cert_details() {
    let d = ServerCertDetails::new(vec![vec![1, 2], vec![3]], vec![9]);
    let d = d.into_owned();
    assert_eq!(d.cert_chain, vec![vec![1, 2], vec![3]]);
    assert_eq!(d.ocsp_response, vec![9]);
}

#[test]
fn unsolicited_extensions() {
    let mut hello = ClientHelloDetails::new(vec![b"h2".to_vec()], 7);
    assert!(hello.sent_extensions.is_empty());
    assert!(!hello.offered_cert_compression);
    assert_eq!(hello.extension_order_seed, 7);
    hello.sent_extensions = vec![0, 16, 43];
    assert!(!hello.server_sent_unsolicited_extensions(&[16, 43], &[]));
    assert!(!hello.server_sent_unsolicited_extensions(&[], &[]));
    assert!(hello.server_sent_unsolicited_extensions(&[16, 51], &[]));
    assert!(!hello.server_sent_unsolicited_extensions(&[16, 51], &[51]));
}

#[test]
fn steps() {
    let req = AttestationRequest::new(vec![], AttestationType::tpm(), vec![]);
    assert!(matches!(attestation_step(AttestationType::tpm(), &req, true), AttestationStep::Generate));
    assert!(matches!(
        attestation_step(AttestationType::tpm(), &req, false),
        AttestationStep::MissingLinkingInputs
    ));
    assert!(matches!(attestation_step(AttestationType::sgx(), &req, true), AttestationStep::Skip));
}

#[test]
fn resolve_without_credential_is_empty() {
    let r = ClientAuthDetails::resolve(None, Some(vec![5]), None, None, None, None).unwrap();
    match r {
        ClientAuthDetails::Empty { auth_context_tls13 } => assert_eq!(auth_context_tls13, Some(vec![5])),
        _ => panic!("expected an empty certificate"),
    }
}

#[test]
fn resolve_without_attestation() {
    let r = ClientAuthDetails::resolve(Some(credential()), None, Some(2), None, None, Some(&[1, 2])).unwrap();
    match r {
        ClientAuthDetails::Verify { credential, auth_context_tls13, compressor, attestation_response } => {
            assert_eq!(credential.signature_scheme, 0x0804);
            assert_eq!(auth_context_tls13, None);
            assert_eq!(compressor, Some(2));
            assert!(attestation_response.is_none());
        }
        _ => panic!("expected a certificate"),
    }
}

#[test]
fn resolve_with_attestation() {
    let cfg = config(Arc::new(EchoGenerator(AttestationType::tpm())));
    let server_req = AttestationRequest::new(vec![3; 32], AttestationType::tpm(), vec![1, 2]);
    let r = ClientAuthDetails::resolve(Some(credential()), None, None, Some(&cfg), Some(&server_req), Some(&[9, 9]))
        .unwrap();
    match r {
        ClientAuthDetails::Verify { attestation_response: Some(resp), .. } => {
            assert_eq!(resp.report, vec![1, 2]);
            assert_eq!(resp.signature, vec![9, 9]);
            assert_eq!(resp.attestation_type, AttestationType::tpm());
        }
        _ => panic!("expected a report"),
    }
}

#[test]
fn resolve_other_technology_sends_no_report() {
    let cfg = config(Arc::new(EchoGenerator(AttestationType::sgx())));
    let server_req = AttestationRequest::new(vec![3; 32], AttestationType::tpm(), vec![]);
    let r = ClientAuthDetails::resolve(Some(credential()), None, None, Some(&cfg), Some(&server_req), None).unwrap();
    assert!(matches!(r, ClientAuthDetails::Verify { attestation_response: None, .. }));
}

#[test]
fn resolve_missing_linking_inputs() {
    let cfg = config(Arc::new(EchoGenerator(AttestationType::tpm())));
    let server_req = AttestationRequest::new(vec![3; 32], AttestationType::tpm(), vec![]);
    let r = ClientAuthDetails::resolve(Some(credential()), None, None, Some(&cfg), Some(&server_req), None);
    match r {
        Err(Error::AttestationGenerationFailed(m)) => assert_eq!(
            m,
            "Cannot compute linking hash: missing transcript, DHE secret, or hash provider"
        ),
        _ => panic!("expected an error"),
    }
}

#[test]
fn resolve_passes_generator_failure_on() {
    let cfg = config(Arc::new(FailingGenerator));
    let server_req = AttestationRequest::new(vec![3; 32], AttestationType::tpm(), vec![]);
    let r = ClientAuthDetails::resolve(Some(credential()), None, None, Some(&cfg), Some(&server_req), Some(&[1]));
    assert!(matches!(r, Err(Error::AttestationGenerationFailed(m)) if m == "no device"));
}

#[test]
fn outcomes() {
    let resp = AttestationResponse::new(vec![1], vec![2], vec![3], AttestationType::tpm());
    assert!(matches!(attestation_outcome(AttestationStep::Skip, None), Ok(None)));
    match attestation_outcome(AttestationStep::Generate, Some(Ok(resp))) {
        Ok(Some(r)) => assert_eq!(r.report, vec![1]),
        _ => panic!("expected the report"),
    }
    let failed = attestation_outcome(
        AttestationStep::Generate,
        Some(Err(Error::AttestationGenerationFailed("quote failed".to_string()))),
    );
    assert!(matches!(failed, Err(Error::AttestationGenerationFailed(m)) if m == "quote failed"));
    let missing = attestation_outcome(AttestationStep::MissingLinkingInputs, None);
    assert!(matches!(missing, Err(Error::AttestationGenerationFailed(m))
        if m == "Cannot compute linking hash: missing transcript, DHE secret, or hash provider"));
}
