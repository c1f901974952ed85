use tls_attestation::msgs::tpm_attestation::{
    MockTpmReportGenerator, MockTpmReportVerifier, TpmAttestationResponse, TpmReportGenerator,
    TpmReportVerifier,
};

#[test]
fn mock_report_layout() {
    let nonce: Vec<u8> = (1..=16).collect();
    let resp = MockTpmReportGenerator.generate_report(&nonce, &[1, 2]).unwrap();
    assert_eq!(resp.report.len(), 64);
    assert_eq!(&resp.report[..16], &nonce[..]);
    assert!(resp.report[16..].iter().all(|&b| b == 0));
    assert_eq!(resp.signature, vec![0u8; 256]);
    assert_eq!(resp.ak_cert, vec![0u8; 512]);
}

#[test]
fn mock_report_keeps_at_most_32_nonce_bytes() {
    let nonce: Vec<u8> = (1..=40).collect();
    let resp = MockTpmReportGenerator.generate_report(&nonce, &[]).unwrap();
    assert_eq!(&resp.report[..32], &nonce[..32]);
    assert!(resp.report[32..].iter().all(|&b| b == 0));
    assert_eq!(MockTpmReportVerifier.verify_report(&resp, &nonce), Ok(true));
}

#[test]
fn mock_generate_then_verify() {
    for len in [0usize, 1, 31, 32, 33, 64] {
        let nonce: Vec<u8> = (0..len).map(|i| (i * 7 + 3) as u8).collect();
        let resp = MockTpmReportGenerator.generate_report(&nonce, &[]).unwrap();
        assert_eq!(MockTpmReportVerifier.verify_report(&resp, &nonce), Ok(true));
    }
}

#[test]
fn mock_rejects_other_nonce() {
    let nonce = vec![0x11u8; 32];
    let mut other = nonce.clone();
    other[31] ^= 0xFF;
    let resp = MockTpmReportGenerator.generate_report(&nonce, &[]).unwrap();
    assert_eq!(MockTpmReportVerifier.verify_report(&resp, &other), Ok(false));
}

#[test]
fn mock_rejects_nonce_longer_than_report() {
    let nonce = vec![1u8; 65];
    let resp = MockTpmReportGenerator.generate_report(&nonce, &[]).unwrap();
    assert_eq!(MockTpmReportVerifier.verify_report(&resp, &nonce), Ok(false));
    let short = TpmAttestationResponse::new(vec![1, 2], vec![], vec![]);
    assert_eq!(MockTpmReportVerifier.verify_report(&short, &[1, 2, 3]), Ok(false));
}
