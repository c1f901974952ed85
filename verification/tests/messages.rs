use tls_attestation::attestation::{AttestationRequest, AttestationResponse, AttestationType};
use tls_attestation::error::InvalidMessage;
use tls_attestation::msgs::codec::Reader;
use tls_attestation::msgs::tpm_attestation::{TpmAttestationRequest, TpmAttestationResponse};

fn encode_request(x: &AttestationRequest) -> Vec<u8> {
    let mut v = Vec::new();
    x.encode(&mut v);
    v
}

fn encode_response(x: &AttestationResponse) -> Vec<u8> {
    let mut v = Vec::new();
    x.encode(&mut v);
    v
}

#[test]
fn request_wire_form() {
    let req = AttestationRequest::new(vec![1, 2], AttestationType::tpm(), vec![9]);
    assert_eq!(encode_request(&req), vec![0, 2, 1, 2, 0, 0, 0, 1, 0, 1, 9]);
}

#[test]
fn request_roundtrip_leaves_trailing_bytes() {
    let req = AttestationRequest::new(vec![7; 32], AttestationType(0x0102_0304), vec![1, 2, 4, 8]);
    let mut bytes = encode_request(&req);
    bytes.push(0xAA);
    let mut r = Reader::init(&bytes);
    let back = AttestationRequest::read(&mut r).unwrap();
    assert_eq!(back.nonce, req.nonce);
    assert_eq!(back.attestation_type, req.attestation_type);
    assert_eq!(back.data, req.data);
    assert_eq!(r.left(), 1);
    assert!(r.any_left());
}

#[test]
fn request_errors() {
    let mut r = Reader::init(&[]);
    assert_eq!(AttestationRequest::read(&mut r).unwrap_err(), InvalidMessage::MissingData("u16"));
    let mut r = Reader::init(&[0, 3, 1]);
    assert_eq!(AttestationRequest::read(&mut r).unwrap_err(), InvalidMessage::MissingData("nonce"));
    let mut r = Reader::init(&[0, 0, 0, 0]);
    assert_eq!(AttestationRequest::read(&mut r).unwrap_err(), InvalidMessage::MissingData("u32"));
    let mut r = Reader::init(&[0, 0, 0, 0, 0, 1, 0]);
    assert_eq!(AttestationRequest::read(&mut r).unwrap_err(), InvalidMessage::MissingData("u16"));
    let mut r = Reader::init(&[0, 0, 0, 0, 0, 1, 0, 5, 1]);
    assert_eq!(AttestationRequest::read(&mut r).unwrap_err(), InvalidMessage::MissingData("data"));
}

#[test]
fn long_field_length_wraps() {
    // a nonce of 2^16 bytes is written with the length 0
    let req = AttestationRequest::new(vec![5; 0x1_0000], AttestationType::tpm(), vec![]);
    let bytes = encode_request(&req);
    assert_eq!(&bytes[..2], &[0, 0]);
    let mut r = Reader::init(&bytes);
    let back = AttestationRequest::read(&mut r).unwrap();
    assert!(back.nonce.is_empty());
    assert_ne!(back.attestation_type, req.attestation_type);
}

#[test]
fn response_wire_form_and_roundtrip() {
    let resp = AttestationResponse::new(vec![1], vec![2, 3], vec![], AttestationType::sev());
    let bytes = encode_response(&resp);
    assert_eq!(bytes, vec![0, 1, 1, 0, 2, 2, 3, 0, 0, 0, 0, 0, 3]);
    let mut r = Reader::init(&bytes);
    let back = AttestationResponse::read(&mut r).unwrap();
    assert_eq!(back.report, resp.report);
    assert_eq!(back.signature, resp.signature);
    assert_eq!(back.certificate_chain, resp.certificate_chain);
    assert_eq!(back.attestation_type, AttestationType::sev());
    assert_eq!(r.left(), 0);
}

#[test]
fn response_errors() {
    let mut r = Reader::init(&[0, 2, 1]);
    assert_eq!(AttestationResponse::read(&mut r).unwrap_err(), InvalidMessage::MissingData("report"));
    let mut r = Reader::init(&[0, 0, 0, 1]);
    assert_eq!(AttestationResponse::read(&mut r).unwrap_err(), InvalidMessage::MissingData("signature"));
    let mut r = Reader::init(&[0, 0, 0, 0, 0, 9]);
    assert_eq!(
        AttestationResponse::read(&mut r).unwrap_err(),
        InvalidMessage::MissingData("certificate_chain")
    );
    let mut r = Reader::init(&[0, 0, 0, 0, 0, 0, 0, 0, 1]);
    assert_eq!(AttestationResponse::read(&mut r).unwrap_err(), InvalidMessage::MissingData("u32"));
}

#[test]
fn tpm_request_roundtrip_and_errors() {
    let req = TpmAttestationRequest::new(vec![3; 32], vec![1, 2, 4, 8]);
    let mut bytes = Vec::new();
    req.encode(&mut bytes);
    assert_eq!(&bytes[..2], &[0, 32]);
    assert_eq!(&bytes[34..], &[0, 4, 1, 2, 4, 8]);
    let mut r = Reader::init(&bytes);
    let back = TpmAttestationRequest::read(&mut r).unwrap();
    assert_eq!(back.nonce, req.nonce);
    assert_eq!(back.pcr_selection, req.pcr_selection);
    let mut r = Reader::init(&[0, 0, 0, 1]);
    assert_eq!(
        TpmAttestationRequest::read(&mut r).unwrap_err(),
        InvalidMessage::MissingData("pcr_selection")
    );
}

#[test]
fn tpm_response_roundtrip_and_errors() {
    let resp = TpmAttestationResponse::new(vec![1, 2, 3], vec![4], vec![5, 6]);
    let mut bytes = Vec::new();
    resp.encode(&mut bytes);
    assert_eq!(bytes, vec![0, 3, 1, 2, 3, 0, 1, 4, 0, 2, 5, 6]);
    let mut r = Reader::init(&bytes);
    let back = TpmAttestationResponse::read(&mut r).unwrap();
    assert_eq!(back.report, resp.report);
    assert_eq!(back.signature, resp.signature);
    assert_eq!(back.ak_cert, resp.ak_cert);
    let mut r = Reader::init(&[0, 0, 0, 0, 0, 1]);
    assert_eq!(TpmAttestationResponse::read(&mut r).unwrap_err(), InvalidMessage::MissingData("ak_cert"));
}

#[test]
fn reader_take() {
    let bytes = [1u8, 2, 3];
    let mut r = Reader::init(&bytes);
    assert_eq!(r.take(2), Some(&[1u8, 2][..]));
    assert_eq!(r.take(2), None);
    assert_eq!(r.left(), 1);
    assert_eq!(r.take(1), Some(&[3u8][..]));
    assert!(!r.any_left());
}
