use tls_attestation::attestation::AttestationType;

#[test]
fn known_technologies() {
    assert_eq!(AttestationType::tpm().0, 1);
    assert_eq!(AttestationType::sgx().0, 2);
    assert_eq!(AttestationType::sev().0, 3);
    assert_eq!(AttestationType::CUSTOM_START, 4);
}

#[test]
fn custom_numbers() {
    let t = AttestationType::custom(5);
    assert_eq!(t.0, 9);
    assert!(t.is_custom());
    assert_eq!(t.custom_id(), Some(5));
    assert_eq!(AttestationType::custom(0).custom_id(), Some(0));
    assert_eq!(AttestationType::custom(u32::MAX - 4).0, u32::MAX);
    assert!(!AttestationType::tpm().is_custom());
    assert_eq!(AttestationType::tpm().custom_id(), None);
    assert_eq!(AttestationType(0).custom_id(), None);
}

#[test]
fn descriptions() {
    assert_eq!(AttestationType::tpm().description(), "Trusted Platform Module 2.0");
    assert_eq!(AttestationType::sgx().description(), "Intel Software Guard Extensions");
    assert_eq!(AttestationType::sev().description(), "AMD Secure Encrypted Virtualization");
    assert_eq!(AttestationType(4).description(), "Custom Attestation Technology");
    assert_eq!(AttestationType(0xFFFF_FFFF).description(), "Custom Attestation Technology");
    assert_eq!(AttestationType(0).description(), "Unknown Attestation Technology");
}

#[test]
fn short_names() {
    assert_eq!(AttestationType::tpm().short_name(), "TPM");
    assert_eq!(AttestationType::sgx().short_name(), "SGX");
    assert_eq!(AttestationType::sev().short_name(), "SEV");
    assert_eq!(AttestationType::custom(0).short_name(), "Custom-0000");
    assert_eq!(AttestationType::custom(0x1A).short_name(), "Custom-001A");
    assert_eq!(AttestationType::custom(0xBEEF).short_name(), "Custom-BEEF");
    assert_eq!(AttestationType::custom(0x1_0000).short_name(), "Custom-10000");
    assert_eq!(AttestationType(0xFFFF_FFFF).short_name(), "Custom-FFFFFFFB");
    assert_eq!(AttestationType(0).short_name(), "Unknown");
}

#[test]
fn display_names() {
    assert_eq!(AttestationType::tpm().to_string(), "TPM");
    assert_eq!(AttestationType::sgx().to_string(), "SGX");
    assert_eq!(AttestationType::sev().to_string(), "SEV");
    assert_eq!(AttestationType(4).to_string(), "TrustZone");
    assert_eq!(AttestationType(5).to_string(), "RA-TLS");
    assert_eq!(AttestationType(6).to_string(), "Custom(0x0002)");
    assert_eq!(AttestationType(0x2_0003).to_string(), "Custom(0x1FFFF)");
    assert_eq!(AttestationType(0).to_string(), "Unknown");
}

#[test]
fn debug_texts() {
    assert_eq!(AttestationType::tpm().debug_string(false), "TPM");
    assert_eq!(
        AttestationType::tpm().debug_string(true),
        "AttestationType { name: \"TPM\", id: 0x0001, description: \"Trusted Platform Module 2.0\" }"
    );
    assert_eq!(
        AttestationType(0x12).debug_string(true),
        "AttestationType { name: \"Custom(0x000E)\", id: 0x0012, description: \"Custom Attestation Technology\" }"
    );
}

#[test]
fn conversions_with_u32() {
    let t: AttestationType = AttestationType::from(7u32);
    assert_eq!(t, AttestationType(7));
    let v: u32 = u32::from(t);
    assert_eq!(v, 7);
    let back: AttestationType = v.into();
    assert_eq!(back, t);
}
