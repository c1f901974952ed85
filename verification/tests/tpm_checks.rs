use tls_attestation::attestation::tpm::{
    check_tpm_report, extract_rsa_public_key, extract_signature_bytes, pcr_slots_to_read,
    tpm_quote_data, tpm_report_bytes, validate_pcr_digest, verify_linking_hash,
    verify_parsed_tpm_report, verify_quote_signature, AkPublicKey, TpmAttest, TpmAttestedInfo,
    TpmQuoteInfo, TpmSignature,
};
use tls_attestation::error::Error;

/// The modulus of a 2048-bit RSA attestation key with public exponent 65537.
const AK_MODULUS: &str = "b6c42c515f10a6aaf282c63edbe24243a170f3fa2633bd4833637f47ca4f6f36e03a5d29efc3191ac80f390d874b39e30f414fcec1fca0ed81e547edc2cd382c76f61c9018973db9fa537972a7c701f6b77e0982dfc15fc01927ee5e7cd94b4f599ff07013a7c8281bdf22dcbc9ad7cabb7c4311c982f58edb7213ad4558b332266d743aed8192d1884cadb8b14739a8dada66dc970806d9c7ac450cb13d0d7c575fb198534fc61bc41bc0f0574e0e0130c7bbbfbdfdc9f6a6e2e3e2aff1cbeac89ba57884528d55cfb08327a1e8c89f4e003cf2888e933241d9d695bcbbacdc90b44e3e095fa37058ea25b13f5e295cbeac6de838ab8c50af61e298975b872f";

/// RSA-PSS (SHA-256) signatures under that key over the SHA-256 digest of
/// `b"marshalled quote"` and of `b"marshalled quote!"`.
const SIG_QUOTE: &str = "58783bdaf5d71e77802e740320b16263eff55e4a67488ebd8ddb22ef695a9abdf0cd33aaf4598d40c1efdb31e7b42c4b8c1c1eabf5f638bb61b4ade4b463e76ab7c2be8ba2d663759064d31feef828085d540a424cf7689d3fd7e00951db626d423ceea65f7663d7dacaedd9be9a9ab6a1e7f714b88c09590487a320d7696421a7d2aad46747e8cf7cbe73352bd8103dbca04b3706b8ab88ee61f01f727914cd2fcace35fe8c9101fe6a479dc70fa7e5cc75a49d945e3099026c54a8ff83cdd0d239c85809e1f6c6acba7d4e2c84de06011814a485bab222ff33bf1b9460bbb4b0b1cff4ae3d87ab0cf9a449a1ae7940567375a85c121557b3f0a449b79293ff";
const SIG_OTHER: &str = "0e0c320ba2eeb9721788ddd73b1b70b698951e7467e94b2a67dcc2e23863d9542f0c7e5574ba32def83ed17890e7bb060dd2927a9f114ca587eba189d6edbef9a291a218532023b11ad8ed9fac1fe27af481d07aaac271484b3b9315a7ea92249ddc24058d24032a275feb61b894a1623764cd083f373c2d39b5151992a01ab2c84cc6fb5dfcda2e0b163e995e4b9239ada1a6bf4c1f259508f1cd9e5b2bd2a8737a9556c0c0dd47e100704325c4bd544aa7ce27d2b917e6496aa2080b502fb067bb46e5af3a4d513bac9a70f4bbe6a5b2b3d7954bb94a7ff142b6f617b4c608f5ffdd495fa232ffbdae3b076ed56b315062741e7d0440bc27babcda70fc765d";

fn unhex(s: &str) -> Vec<u8> {
    (0..s.len()).step_by(2).map(|i| u8::from_str_radix(&s[i..i + 2], 16).unwrap()).collect()
}

fn ak_public() -> AkPublicKey {
    AkPublicKey::Rsa(unhex(AK_MODULUS))
}

fn quote(digest_len: usize, selections: usize) -> TpmAttest {
    TpmAttest {
        attested: TpmAttestedInfo::Quote(TpmQuoteInfo { pcr_selection_len: selections, pcr_digest: vec![7; digest_len] }),
        marshalled: Ok(b"marshalled quote".to_vec()),
    }
}

fn verification_message(e: Error) -> String {
    match e {
        Error::AttestationVerificationFailed(m) => m,
        other => panic!("unexpected error {:?}", other),
    }
}

#[test]
fn linking_hash_prefix() {
    assert_eq!(verify_linking_hash(&[1, 2, 3, 4], &[1, 2]), Ok(true));
    assert_eq!(verify_linking_hash(&[1, 2, 3, 4], &[1, 3]), Ok(false));
    assert_eq!(verify_linking_hash(&[1], &[1, 2]), Ok(false));
    assert_eq!(verify_linking_hash(&[1], &[]), Ok(true));
}

#[test]
fn quote_data_errors() {
    let m = |r: Result<&[u8], Error>| verification_message(r.unwrap_err());
    assert_eq!(m(tpm_quote_data(&[], &[1], &[1], &[])), "Report too short");
    assert_eq!(m(tpm_quote_data(&[1], &[], &[1], &[])), "Empty signature");
    assert_eq!(m(tpm_quote_data(&[1], &[1], &[], &[])), "Empty public key");
    assert_eq!(m(tpm_quote_data(&[1, 2, 3], &[1], &[1], &[0; 5])), "Report too short: 3 <= 5");
    assert_eq!(m(tpm_quote_data(&[0; 12], &[1], &[1], &[0; 12])), "Report too short: 12 <= 12");
    assert_eq!(tpm_quote_data(&[1, 2, 3], &[1], &[1], &[1]).unwrap(), &[2, 3]);
}

#[test]
fn framing_check() {
    let hash = [9u8; 32];
    let report = tpm_report_bytes(&hash, &[1, 2, 3]);
    assert_eq!(report.len(), 35);
    assert_eq!(check_tpm_report(&report, &[1], &[1], &hash), Ok(Some(&[1u8, 2, 3][..])));
    let mut tampered = hash;
    tampered[0] ^= 0xFF;
    assert_eq!(check_tpm_report(&report, &[1], &[1], &tampered), Ok(None));
    assert_eq!(check_tpm_report(&report, &[], &[1], &hash), Ok(None));
    assert_eq!(check_tpm_report(&report, &[1], &[], &hash), Ok(None));
    assert_eq!(check_tpm_report(&hash, &[1], &[1], &hash), Ok(None));
    assert_eq!(check_tpm_report(&[], &[1], &[1], &[]), Ok(None));
}

#[test]
fn signature_bytes() {
    assert_eq!(extract_signature_bytes(&TpmSignature::RsaPss(vec![1; 32])).unwrap(), vec![1; 32]);
    assert_eq!(extract_signature_bytes(&TpmSignature::RsaSsa(vec![2; 40])).unwrap(), vec![2; 40]);
    let m = |s: TpmSignature| verification_message(extract_signature_bytes(&s).unwrap_err());
    assert_eq!(m(TpmSignature::RsaPss(vec![])), "Empty RSA-PSS signature");
    assert_eq!(m(TpmSignature::RsaPss(vec![1; 31])), "RSA-PSS signature too short");
    assert_eq!(m(TpmSignature::RsaSsa(vec![])), "Empty RSA-SSA signature");
    assert_eq!(m(TpmSignature::RsaSsa(vec![1; 3])), "RSA-SSA signature too short");
    assert_eq!(m(TpmSignature::Null), "Null signature not valid for TPM quotes");
    assert_eq!(m(TpmSignature::Other), "Unsupported signature type for TPM quotes");
}

#[test]
fn rsa_key_extraction() {
    assert!(extract_rsa_public_key(&ak_public()).is_ok());
    let m = |k: AkPublicKey| verification_message(extract_rsa_public_key(&k).err().unwrap());
    assert_eq!(m(AkPublicKey::Unconvertible("bad area".to_string())), "Conversion failed: bad area");
    assert_eq!(m(AkPublicKey::NotRsa), "AK is not RSA key");
    // an even modulus is refused by `rsa`
    assert!(m(AkPublicKey::Rsa(vec![0x80, 0, 0, 0, 0, 2])).starts_with("Invalid RSA key: "));
    // a modulus not above the exponent is refused
    assert!(m(AkPublicKey::Rsa(vec![0x01, 0x00, 0x01])).starts_with("Invalid RSA key: "));
    // more than 4096 bits is refused
    assert!(m(AkPublicKey::Rsa(vec![0xFF; 513])).starts_with("Invalid RSA key: "));
}

#[test]
fn pcr_digest_checks() {
    assert_eq!(validate_pcr_digest(&quote(32, 1)), Ok(true));
    assert_eq!(validate_pcr_digest(&quote(31, 1)), Ok(false));
    assert_eq!(validate_pcr_digest(&quote(32, 0)), Ok(false));
    let other = TpmAttest { attested: TpmAttestedInfo::Other, marshalled: Ok(vec![]) };
    assert_eq!(validate_pcr_digest(&other), Ok(false));
}

#[test]
fn quote_signature_verifies() {
    let attest = quote(32, 1);
    let sig = unhex(SIG_QUOTE);
    assert_eq!(verify_quote_signature(&attest, &TpmSignature::RsaPss(sig.clone()), &ak_public()), Ok(true));
    // a signature over another message fails
    let over_other = unhex(SIG_OTHER);
    assert_eq!(verify_quote_signature(&attest, &TpmSignature::RsaPss(over_other), &ak_public()), Ok(false));
    // a modified signature fails
    let mut bad = sig.clone();
    bad[10] ^= 1;
    assert_eq!(verify_quote_signature(&attest, &TpmSignature::RsaPss(bad), &ak_public()), Ok(false));
    // another quote fails
    let other = TpmAttest { attested: TpmAttestedInfo::Other, marshalled: Ok(b"another quote".to_vec()) };
    assert_eq!(verify_quote_signature(&other, &TpmSignature::RsaPss(sig.clone()), &ak_public()), Ok(false));
    // unusable key or signature give false
    assert_eq!(verify_quote_signature(&attest, &TpmSignature::RsaPss(sig.clone()), &AkPublicKey::NotRsa), Ok(false));
    assert_eq!(verify_quote_signature(&attest, &TpmSignature::RsaPss(vec![1; 40]), &ak_public()), Ok(false));
    assert_eq!(verify_quote_signature(&attest, &TpmSignature::Null, &ak_public()), Ok(false));
}

#[test]
fn quote_marshal_failure() {
    let attest = TpmAttest { attested: TpmAttestedInfo::Other, marshalled: Err("boom".to_string()) };
    let r = verify_quote_signature(&attest, &TpmSignature::Null, &ak_public());
    assert_eq!(verification_message(r.unwrap_err()), "Failed to marshal attest: boom");
    // with an unusable key the marshalling is never reached
    assert_eq!(verify_quote_signature(&attest, &TpmSignature::Null, &AkPublicKey::NotRsa), Ok(false));
    let parsed = verify_parsed_tpm_report(Ok((attest, TpmSignature::Null, ak_public())));
    assert_eq!(verification_message(parsed.unwrap_err()), "Failed to marshal attest: boom");
}

#[test]
fn parsed_report_checks() {
    let sig = unhex(SIG_QUOTE);
    assert_eq!(
        verify_parsed_tpm_report(Ok((quote(32, 2), TpmSignature::RsaPss(sig.clone()), ak_public()))),
        Ok(true)
    );
    assert_eq!(
        verify_parsed_tpm_report(Ok((quote(20, 2), TpmSignature::RsaPss(sig.clone()), ak_public()))),
        Ok(false)
    );
    assert_eq!(
        verify_parsed_tpm_report(Err(Error::AttestationVerificationFailed("unparsable".to_string()))),
        Ok(false)
    );
}

#[test]
fn pcr_slots() {
    assert_eq!(pcr_slots_to_read(vec![]), vec![1, 2]);
    assert_eq!(pcr_slots_to_read(vec![2, 8]), vec![2, 8]);
}

