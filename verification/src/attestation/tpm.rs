//! TPM 2.0 quotes as attestation reports.
//!
//! A report is the linking hash followed by the marshalled TPM quote
//! (`TPMS_ATTEST`); its signature is a marshalled `TPMT_SIGNATURE` and its
//! certificate chain the marshalled public area of the attestation key.
//! Checking a report goes in two steps around the unmarshalling of the TPM
//! structures: `check_tpm_report` checks the framing and the linking hash
//! and hands out the quote bytes; `verify_parsed_tpm_report` checks the
//! unmarshalled quote, signature and key.
use vstd::prelude::*;
use vstd::string::*;
use vstd::slice::slice_subrange;
use crate::error::Error;
use crate::crypto::{
    ct_eq_bytes, rsa_key_accepted, rsa_pss_sha256_verifies, rsa_pss_sha256_verify,
    rsa_public_key_new, sha256, sha256_digest, RsaVerifyingKey,
};
use crate::msgs::codec::append_bytes;
use crate::text::{dec_digits, push_dec};

verus! {

/// The public exponent of attestation keys.
pub const AK_PUBLIC_EXPONENT: u32 = 65537;

/// The PCR slots quoted when the request selects none: slots 0 and 1, as
/// the TPM's slot bit masks.
pub open spec fn default_pcr_slots() -> Seq<u32> {
    seq![0x0000_0001u32, 0x0000_0002u32]
}

/// The part of a quote's attested information that the checks read.
pub struct TpmQuoteInfo {
    /// The number of PCR selections the quote covers.
    pub pcr_selection_len: usize,
    /// The digest over the selected PCRs.
    pub pcr_digest: Vec<u8>,
}

/// The kind of information a TPM attestation structure attests.
pub enum TpmAttestedInfo {
    Quote(TpmQuoteInfo),
    Other,
}

/// An unmarshalled `TPMS_ATTEST`: what it attests, and its marshalled form
/// (or the text of the marshalling error).
pub struct TpmAttest {
    pub attested: TpmAttestedInfo,
    pub marshalled: Result<Vec<u8>, String>,
}

/// An unmarshalled `TPMT_SIGNATURE`, with the signature bytes of the RSA
/// schemes.
pub enum TpmSignature {
    RsaPss(Vec<u8>),
    RsaSsa(Vec<u8>),
    Null,
    Other,
}

/// The public key of an unmarshalled attestation-key public area.
pub enum AkPublicKey {
    /// An RSA key, by its big-endian modulus.
    Rsa(Vec<u8>),
    /// A key of another algorithm.
    NotRsa,
    /// The public area gave no key; the text of the conversion error.
    Unconvertible(String),
}

/// Whether `report` begins with `expected_linking_hash`.
pub open spec fn linking_hash_matches(report: Seq<u8>, expected_linking_hash: Seq<u8>) -> bool {
    report.len() >= expected_linking_hash.len() && report.take(expected_linking_hash.len() as int)
        == expected_linking_hash
}

/// Whether the framing of a report passes: signature, key and report are
/// not empty, the report begins with the linking hash, and a quote follows it.
pub open spec fn tpm_report_framing_ok(
    report: Seq<u8>,
    signature: Seq<u8>,
    ak_public: Seq<u8>,
    expected_linking_hash: Seq<u8>,
) -> bool {
    &&& signature.len() > 0
    &&& ak_public.len() > 0
    &&& report.len() > expected_linking_hash.len()
    &&& linking_hash_matches(report, expected_linking_hash)
}

/// The message for a report no longer than the linking hash.
pub open spec fn report_too_short_message(report_len: nat, hash_len: nat) -> Seq<char> {
    "Report too short: "@ + dec_digits(report_len) + " <= "@ + dec_digits(hash_len)
}

/// The signature bytes of an RSA signature of at least 32 bytes.
pub open spec fn spec_signature_bytes(signature: TpmSignature) -> Option<Seq<u8>> {
    match signature {
        TpmSignature::RsaPss(b) => if b@.len() >= 32 {
            Some(b@)
        } else {
            None
        },
        TpmSignature::RsaSsa(b) => if b@.len() >= 32 {
            Some(b@)
        } else {
            None
        },
        _ => None,
    }
}

/// Whether the attestation key is an RSA key that `rsa` accepts with the
/// public exponent 65537.
pub open spec fn ak_usable(ak_public: AkPublicKey) -> bool {
    ak_public matches AkPublicKey::Rsa(m) && rsa_key_accepted(m@, AK_PUBLIC_EXPONENT as nat)
}

/// Whether checking the signature stops on the marshalling of the quote:
/// the key is usable and the quote could not be marshalled.
pub open spec fn quote_marshal_fails(attest: TpmAttest, ak_public: AkPublicKey) -> bool {
    ak_usable(ak_public) && attest.marshalled is Err
}

/// Whether the quote's signature is valid: the key is usable, the quote
/// marshals, the signature is an RSA signature of at least 64 bytes, and it
/// verifies with RSA-PSS over the SHA-256 digest of the marshalled quote.
pub open spec fn quote_signature_valid(
    attest: TpmAttest,
    signature: TpmSignature,
    ak_public: AkPublicKey,
) -> bool {
    &&& ak_public matches AkPublicKey::Rsa(m)
    &&& rsa_key_accepted(m@, AK_PUBLIC_EXPONENT as nat)
    &&& attest.marshalled matches Ok(bytes)
    &&& spec_signature_bytes(signature) matches Some(s)
    &&& s.len() >= 64
    &&& rsa_pss_sha256_verifies(m@, AK_PUBLIC_EXPONENT as nat, sha256(bytes@), s)
}

/// Whether the quote is signed by the attestation key, read off the parts
/// themselves: the key is an RSA modulus that `rsa` accepts with the public
/// exponent 65537, the quote marshals to bytes `b`, and the signature is an
/// RSA-PSS or RSA-SSA signature `s` of at least 64 bytes that verifies with
/// RSA-PSS under that key over the SHA-256 digest of `b`.
pub open spec fn quote_signed_by_ak(
    attest: TpmAttest,
    signature: TpmSignature,
    ak_public: AkPublicKey,
) -> bool {
    match (ak_public, attest.marshalled, signature) {
        (AkPublicKey::Rsa(m), Ok(b), TpmSignature::RsaPss(s)) => rsa_key_accepted(
            m@,
            65537,
        ) && s@.len() >= 64 && rsa_pss_sha256_verifies(m@, 65537, sha256(b@), s@),
        (AkPublicKey::Rsa(m), Ok(b), TpmSignature::RsaSsa(s)) => rsa_key_accepted(
            m@,
            65537,
        ) && s@.len() >= 64 && rsa_pss_sha256_verifies(m@, 65537, sha256(b@), s@),
        _ => false,
    }
}

/// Whether the attestation is a quote over one or more PCR selections whose
/// PCR digest is 32 bytes (a SHA-256 digest).
pub open spec fn quote_over_pcrs(attest: TpmAttest) -> bool {
    match attest.attested {
        TpmAttestedInfo::Quote(q) => q.pcr_selection_len >= 1 && q.pcr_digest@.len() == 32,
        TpmAttestedInfo::Other => false,
    }
}

/// Whether the quote covers at least one PCR selection with a 32-byte digest.
pub open spec fn pcr_digest_valid(attest: TpmAttest) -> bool {
    attest.attested matches TpmAttestedInfo::Quote(q) && q.pcr_selection_len > 0
        && q.pcr_digest@.len() == 32
}

/// The message for a quote that could not be marshalled.
pub open spec fn marshal_failure_text(attest: TpmAttest) -> Seq<char> {
    match attest.marshalled {
        Err(d) => "Failed to marshal attest: "@ + d@,
        Ok(_) => Seq::empty(),
    }
}

/// Whether `r` is the `AttestationVerificationFailed` error with the text `text`.
pub open spec fn fails_verification<T>(r: Result<T, Error>, text: Seq<char>) -> bool {
    r matches Err(Error::AttestationVerificationFailed(m)) && m@ == text
}

/// The quote bytes of a report: the report after the linking hash. Fails
/// for an empty report, signature or key, and for a report no longer than
/// the linking hash.
pub fn tpm_quote_data<'a>(
    report: &'a [u8],
    signature: &[u8],
    ak_public_bytes: &[u8],
    expected_linking_hash: &[u8],
) -> (r: Result<&'a [u8], Error>)
    ensures
        report@.len() == 0 ==> fails_verification(r, "Report too short"@),
        report@.len() > 0 && signature@.len() == 0 ==> fails_verification(r, "Empty signature"@),
        report@.len() > 0 && signature@.len() > 0 && ak_public_bytes@.len() == 0 ==> fails_verification(r, "Empty public key"@),
        report@.len() > 0 && signature@.len() > 0 && ak_public_bytes@.len() > 0 && report@.len()
            <= expected_linking_hash@.len() ==> fails_verification(r, report_too_short_message(report@.len(), expected_linking_hash@.len())),
        signature@.len() > 0 && ak_public_bytes@.len() > 0 && report@.len()
            > expected_linking_hash@.len() ==> (r matches Ok(q) && q@ == report@.skip(
            expected_linking_hash@.len() as int,
        )),
{
    if report.len() == 0 {
        return Err(Error::AttestationVerificationFailed(String::from_str("Report too short")));
    }
    if signature.len() == 0 {
        return Err(Error::AttestationVerificationFailed(String::from_str("Empty signature")));
    }
    if ak_public_bytes.len() == 0 {
        return Err(Error::AttestationVerificationFailed(String::from_str("Empty public key")));
    }
    let linking_hash_len = expected_linking_hash.len();
    if report.len() <= linking_hash_len {
        let mut m = String::from_str("Report too short: ");
        push_dec(&mut m, report.len());
        m.append(" <= ");
        push_dec(&mut m, linking_hash_len);
        return Err(Error::AttestationVerificationFailed(m));
    }
    Ok(slice_subrange(report, linking_hash_len, report.len()))
}

/// Whether the report begins with the expected linking hash, compared in
/// constant time.
pub fn verify_linking_hash(report: &[u8], expected_linking_hash: &[u8]) -> (r: Result<bool, Error>)
    ensures
        r == Ok::<bool, Error>(linking_hash_matches(report@, expected_linking_hash@)),
{
    if report.len() < expected_linking_hash.len() {
        return Ok(false);
    }
    let report_linking_hash = slice_subrange(report, 0, expected_linking_hash.len());
    let matches = ct_eq_bytes(report_linking_hash, expected_linking_hash);
    Ok(matches)
}

/// The first step of checking a report: `None` where the report is rejected
/// on its framing or its linking hash, otherwise the quote bytes to
/// unmarshall, for `verify_parsed_tpm_report`.
pub fn check_tpm_report<'a>(
    report: &'a [u8],
    signature: &[u8],
    ak_public_bytes: &[u8],
    expected_linking_hash: &[u8],
) -> (r: Result<Option<&'a [u8]>, Error>)
    ensures
        r matches Ok(o) && (o is Some <==> tpm_report_framing_ok(
            report@,
            signature@,
            ak_public_bytes@,
            expected_linking_hash@,
        )) && (o matches Some(q) ==> q@ == report@.skip(expected_linking_hash@.len() as int)),
{
    if signature.len() == 0 || ak_public_bytes.len() == 0 || report.len() == 0 {
        return Ok(None);
    }
    if !verify_linking_hash(report, expected_linking_hash)? {
        return Ok(None);
    }
    match tpm_quote_data(report, signature, ak_public_bytes, expected_linking_hash) {
        Ok(q) => Ok(Some(q)),
        Err(_) => Ok(None),
    }
}

/// The signature bytes of an RSA-PSS or RSA-SSA signature of at least 32
/// bytes.
pub fn extract_signature_bytes(signature: &TpmSignature) -> (r: Result<Vec<u8>, Error>)
    ensures
        spec_signature_bytes(*signature) matches Some(b) ==> (r matches Ok(v) && v@ == b),
        signature matches TpmSignature::RsaPss(b) && b@.len() == 0 ==> fails_verification(r, "Empty RSA-PSS signature"@),
        signature matches TpmSignature::RsaPss(b) && 0 < b@.len() < 32 ==> fails_verification(r, "RSA-PSS signature too short"@),
        signature matches TpmSignature::RsaSsa(b) && b@.len() == 0 ==> fails_verification(r, "Empty RSA-SSA signature"@),
        signature matches TpmSignature::RsaSsa(b) && 0 < b@.len() < 32 ==> fails_verification(r, "RSA-SSA signature too short"@),
        signature is Null ==> fails_verification(r, "Null signature not valid for TPM quotes"@),
        signature is Other ==> fails_verification(r, "Unsupported signature type for TPM quotes"@),
{
    match signature {
        TpmSignature::RsaPss(sig) => {
            if sig.len() == 0 {
                return Err(
                    Error::AttestationVerificationFailed(String::from_str("Empty RSA-PSS signature")),
                );
            }
            if sig.len() < 32 {
                return Err(
                    Error::AttestationVerificationFailed(
                        String::from_str("RSA-PSS signature too short"),
                    ),
                );
            }
            let mut bytes = Vec::new();
            append_bytes(&mut bytes, sig.as_slice());
            assert(bytes@ =~= sig@);
            Ok(bytes)
        },
        TpmSignature::RsaSsa(sig) => {
            if sig.len() == 0 {
                return Err(
                    Error::AttestationVerificationFailed(String::from_str("Empty RSA-SSA signature")),
                );
            }
            if sig.len() < 32 {
                return Err(
                    Error::AttestationVerificationFailed(
                        String::from_str("RSA-SSA signature too short"),
                    ),
                );
            }
            let mut bytes = Vec::new();
            append_bytes(&mut bytes, sig.as_slice());
            assert(bytes@ =~= sig@);
            Ok(bytes)
        },
        TpmSignature::Null => Err(
            Error::AttestationVerificationFailed(
                String::from_str("Null signature not valid for TPM quotes"),
            ),
        ),
        TpmSignature::Other => Err(
            Error::AttestationVerificationFailed(
                String::from_str("Unsupported signature type for TPM quotes"),
            ),
        ),
    }
}

/// The RSA key of the attestation key, with the public exponent 65537.
pub fn extract_rsa_public_key(ak_public: &AkPublicKey) -> (r: Result<RsaVerifyingKey, Error>)
    ensures
        r is Ok <==> ak_usable(*ak_public),
        r matches Ok(k) ==> (ak_public matches AkPublicKey::Rsa(m) && k.modulus() == m@
            && k.exponent() == AK_PUBLIC_EXPONENT),
        ak_public matches AkPublicKey::Unconvertible(d) ==> fails_verification(r, "Conversion failed: "@ + d@),
        ak_public is NotRsa ==> fails_verification(r, "AK is not RSA key"@),
        ak_public is Rsa && !ak_usable(*ak_public) ==> (r matches Err(
            Error::AttestationVerificationFailed(m),
        ) && "Invalid RSA key: "@.is_prefix_of(m@)),
{
    match ak_public {
        AkPublicKey::Unconvertible(detail) => {
            let mut m = String::from_str("Conversion failed: ");
            m.append(detail.as_str());
            Err(Error::AttestationVerificationFailed(m))
        },
        AkPublicKey::NotRsa => Err(
            Error::AttestationVerificationFailed(String::from_str("AK is not RSA key")),
        ),
        AkPublicKey::Rsa(modulus) => match rsa_public_key_new(
            modulus.as_slice(),
            AK_PUBLIC_EXPONENT,
        ) {
            Ok(key) => Ok(key),
            Err(detail) => {
                let mut m = String::from_str("Invalid RSA key: ");
                m.append(detail.as_str());
                assert("Invalid RSA key: "@.is_prefix_of(m@)) by {
                    assert(m@.take("Invalid RSA key: "@.len() as int) =~= "Invalid RSA key: "@);
                }
                Err(Error::AttestationVerificationFailed(m))
            },
        },
    }
}

/// Whether the quote's RSA-PSS signature verifies under the attestation key.
/// Fails where the key is usable but the quote could not be marshalled.
pub fn verify_quote_signature(
    attest: &TpmAttest,
    signature: &TpmSignature,
    ak_public: &AkPublicKey,
) -> (r: Result<bool, Error>)
    ensures
        quote_marshal_fails(*attest, *ak_public) ==> fails_verification(
            r,
            marshal_failure_text(*attest),
        ),
        !quote_marshal_fails(*attest, *ak_public) ==> r == Ok::<bool, Error>(
            quote_signature_valid(*attest, *signature, *ak_public),
        ),
        (r == Ok::<bool, Error>(true)) <==> quote_signed_by_ak(*attest, *signature, *ak_public),
{
    let rsa_key = match extract_rsa_public_key(ak_public) {
        Ok(key) => key,
        Err(_) => return Ok(false),
    };
    let attest_bytes = match &attest.marshalled {
        Ok(bytes) => bytes,
        Err(detail) => {
            let mut m = String::from_str("Failed to marshal attest: ");
            m.append(detail.as_str());
            return Err(Error::AttestationVerificationFailed(m));
        },
    };
    let message_digest = sha256_digest(attest_bytes.as_slice());
    let sig_bytes = match extract_signature_bytes(signature) {
        Ok(bytes) => {
            if bytes.len() < 64 {
                return Ok(false);
            }
            bytes
        },
        Err(_) => return Ok(false),
    };
    let valid = rsa_pss_sha256_verify(&rsa_key, message_digest.as_slice(), sig_bytes.as_slice());
    proof {
        lemma_quote_acceptance(*attest, *signature, *ak_public);
    }
    Ok(valid)
}

/// Whether the attestation is a quote over at least one PCR selection with a
/// 32-byte digest.
pub fn validate_pcr_digest(attest: &TpmAttest) -> (r: Result<bool, Error>)
    ensures
        r == Ok::<bool, Error>(pcr_digest_valid(*attest)),
{
    let quote_info = match &attest.attested {
        TpmAttestedInfo::Quote(info) => info,
        TpmAttestedInfo::Other => return Ok(false),
    };
    if quote_info.pcr_selection_len == 0 {
        return Ok(false);
    }
    if quote_info.pcr_digest.len() != 32 {
        return Ok(false);
    }
    Ok(true)
}

/// The second step of checking a report, on what unmarshalling the quote,
/// the signature and the key's public area gave: a failed unmarshalling
/// rejects the report; otherwise the signature and then the PCR digest are
/// checked.
pub fn verify_parsed_tpm_report(parsed: Result<(TpmAttest, TpmSignature, AkPublicKey), Error>) -> (r:
    Result<bool, Error>)
    ensures
        parsed is Err ==> r == Ok::<bool, Error>(false),
        parsed matches Ok((a, s, k)) ==> if quote_marshal_fails(a, k) {
            fails_verification(r, marshal_failure_text(a))
        } else {
            r == Ok::<bool, Error>(quote_signature_valid(a, s, k) && pcr_digest_valid(a))
        },
        parsed matches Ok((a, s, k)) ==> ((r == Ok::<bool, Error>(true)) <==> (quote_signed_by_ak(
            a,
            s,
            k,
        ) && quote_over_pcrs(a))),
{
    let (attest, signature_struct, ak_public) = match parsed {
        Ok(structures) => structures,
        Err(_) => return Ok(false),
    };
    proof {
        lemma_quote_acceptance(attest, signature_struct, ak_public);
    }
    if !verify_quote_signature(&attest, &signature_struct, &ak_public)? {
        return Ok(false);
    }
    if !validate_pcr_digest(&attest)? {
        return Ok(false);
    }
    Ok(true)
}

/// The PCR slots to quote: those selected, or slots 0 and 1 where none is.
pub fn pcr_slots_to_read(selected_slots: Vec<u32>) -> (r: Vec<u32>)
    ensures
        r@ == (if selected_slots@.len() == 0 {
            default_pcr_slots()
        } else {
            selected_slots@
        }),
{
    if selected_slots.len() == 0 {
        let mut v = Vec::new();
        v.push(0x0000_0001u32);
        v.push(0x0000_0002u32);
        assert(v@ =~= default_pcr_slots());
        v
    } else {
        selected_slots
    }
}

/// A report: the linking hash followed by the marshalled quote.
pub fn tpm_report_bytes(linking_hash: &[u8], quoted: &[u8]) -> (r: Vec<u8>)
    ensures
        r@ == linking_hash@ + quoted@,
{
    let mut report = Vec::new();
    append_bytes(&mut report, linking_hash);
    append_bytes(&mut report, quoted);
    report
}

/// A report built over a linking hash passes the framing check for that
/// linking hash and hands back the quote it was built from, when the quote,
/// signature and key are not empty.
pub proof fn lemma_report_framing_roundtrip(
    linking_hash: Seq<u8>,
    quoted: Seq<u8>,
    signature: Seq<u8>,
    ak_public: Seq<u8>,
)
    requires
        quoted.len() > 0,
        signature.len() > 0,
        ak_public.len() > 0,
    ensures
        tpm_report_framing_ok(linking_hash + quoted, signature, ak_public, linking_hash),
        (linking_hash + quoted).skip(linking_hash.len() as int) == quoted,
{
    assert((linking_hash + quoted).take(linking_hash.len() as int) =~= linking_hash);
    assert((linking_hash + quoted).skip(linking_hash.len() as int) =~= quoted);
}

/// A report that passes the framing check for one linking hash fails it for
/// any other linking hash of the same length.
pub proof fn lemma_other_linking_hash_rejected(
    report: Seq<u8>,
    signature: Seq<u8>,
    ak_public: Seq<u8>,
    linking_hash: Seq<u8>,
    other: Seq<u8>,
)
    requires
        tpm_report_framing_ok(report, signature, ak_public, linking_hash),
        other.len() == linking_hash.len(),
        other != linking_hash,
    ensures
        !tpm_report_framing_ok(report, signature, ak_public, other),
{
}

/// A report is accepted only with a signature that verifies under the
/// attestation key over the SHA-256 digest of the marshalled quote, and a
/// quote over at least one PCR selection with a 32-byte digest.
pub proof fn lemma_accepted_report_is_signed(
    attest: TpmAttest,
    signature: TpmSignature,
    ak_public: AkPublicKey,
)
    requires
        !quote_marshal_fails(attest, ak_public),
        quote_signature_valid(attest, signature, ak_public) && pcr_digest_valid(attest),
    ensures
        ak_public matches AkPublicKey::Rsa(m) && attest.marshalled matches Ok(bytes)
            && spec_signature_bytes(signature) matches Some(s) && rsa_pss_sha256_verifies(
            m@,
            AK_PUBLIC_EXPONENT as nat,
            sha256(bytes@),
            s,
        ),
        attest.attested matches TpmAttestedInfo::Quote(q) && q.pcr_digest@.len() == 32,
{
}


/// A quote is accepted exactly when it is signed by the attestation key and
/// covers PCRs: an RSA key accepted with exponent 65537, a quote marshalling
/// to bytes `b`, an RSA signature of at least 64 bytes verifying with RSA-PSS
/// over SHA-256 of `b`, and a quote over one or more PCR selections with a
/// 32-byte digest give acceptance, and nothing else does. In particular a
/// genuine quote of any length is accepted.
pub proof fn lemma_quote_acceptance(attest: TpmAttest, signature: TpmSignature, ak_public: AkPublicKey)
    ensures
        quote_signed_by_ak(attest, signature, ak_public) ==> !quote_marshal_fails(attest, ak_public)
            && quote_signature_valid(attest, signature, ak_public),
        !quote_marshal_fails(attest, ak_public) ==> (quote_signature_valid(
            attest,
            signature,
            ak_public,
        ) <==> quote_signed_by_ak(attest, signature, ak_public)),
        quote_over_pcrs(attest) <==> pcr_digest_valid(attest),
{
}

/// A genuine TPM quote is accepted: with the key, quote bytes and signature
/// given, the conditions on them alone make the report pass.
pub proof fn lemma_genuine_quote_accepted(
    attest: TpmAttest,
    signature: TpmSignature,
    ak_public: AkPublicKey,
    modulus: Seq<u8>,
    quote_bytes: Seq<u8>,
    sig: Seq<u8>,
)
    requires
        ak_public matches AkPublicKey::Rsa(m) && m@ == modulus,
        rsa_key_accepted(modulus, 65537),
        attest.marshalled matches Ok(b) && b@ == quote_bytes,
        signature matches TpmSignature::RsaPss(s) && s@ == sig,
        sig.len() >= 64,
        rsa_pss_sha256_verifies(modulus, 65537, sha256(quote_bytes), sig),
        attest.attested matches TpmAttestedInfo::Quote(q) && q.pcr_selection_len >= 1
            && q.pcr_digest@.len() == 32,
    ensures
        !quote_marshal_fails(attest, ak_public),
        quote_signature_valid(attest, signature, ak_public),
        pcr_digest_valid(attest),
{
    lemma_quote_acceptance(attest, signature, ak_public);
}

} // verus!
