//! TPM attestation messages, the roles that produce and check TPM reports,
//! and a mock pair of them that binds a report to its nonce without a TPM.
use vstd::prelude::*;
use std::sync::Arc;
use crate::error::{Error, InvalidMessage};
use crate::msgs::codec::{
    append_bytes, encode_prefixed, lemma_prefixed_inverse, lemma_prefixed_layout,
    lemma_prefixed_roundtrip, lemma_read_prefixed_layout, prefixed,
    read_prefixed, spec_read_prefixed, Reader,
};

verus! {

/// A request for a TPM report: a fresh nonce and the PCRs to quote.
#[derive(Debug, Clone)]
pub struct TpmAttestationRequest {
    pub nonce: Vec<u8>,
    pub pcr_selection: Vec<u8>,
}

/// A TPM report with its signature and the attestation key's certificate.
#[derive(Debug, Clone)]
pub struct TpmAttestationResponse {
    pub report: Vec<u8>,
    pub signature: Vec<u8>,
    pub ak_cert: Vec<u8>,
}

/// Produces TPM reports (on the client and on the server).
pub trait TpmReportGenerator: Send + Sync {
    /// A report over the client's nonce and the selected PCRs.
    fn generate_report(&self, client_nonce: &[u8], pcr_selection: &[u8]) -> Result<
        TpmAttestationResponse,
        Error,
    >;
}

/// Checks TPM reports (the client checks the server's).
pub trait TpmReportVerifier: Send + Sync {
    /// Whether `response` is a valid report for `expected_nonce`.
    fn verify_report(&self, response: &TpmAttestationResponse, expected_nonce: &[u8]) -> Result<
        bool,
        Error,
    >;
}

/// The client's TPM attestation settings.
pub struct ClientTpmConfig {
    pub request: TpmAttestationRequest,
    pub verifier: Arc<dyn TpmReportVerifier>,
    pub report_generator: Arc<dyn TpmReportGenerator>,
}

/// The server's TPM attestation settings.
pub struct ServerTpmAttestation {
    pub request: TpmAttestationRequest,
    pub report_generator: Arc<dyn TpmReportGenerator>,
}

/// A report generator that needs no TPM: the report is 64 bytes that begin
/// with (up to 32 bytes of) the nonce.
pub struct MockTpmReportGenerator;

/// A report verifier that checks only that the report begins with (up to 32
/// bytes of) the expected nonce.
pub struct MockTpmReportVerifier;

/// `n` zero bytes.
pub open spec fn zero_bytes(n: nat) -> Seq<u8> {
    Seq::new(n, |i: int| 0u8)
}

/// How many bytes of a nonce the mock report carries and the mock check compares.
pub open spec fn mock_nonce_len(nonce_len: nat) -> nat {
    if nonce_len < 32 {
        nonce_len
    } else {
        32
    }
}

/// The mock report for `nonce`: its first bytes (at most 32), then zeros up
/// to 64 bytes.
pub open spec fn mock_report(nonce: Seq<u8>) -> Seq<u8> {
    let k = mock_nonce_len(nonce.len());
    nonce.take(k as int) + zero_bytes((64 - k) as nat)
}

/// Whether the mock check accepts `report` for `expected_nonce`: the report
/// is at least as long as the nonce and begins with its first (at most 32)
/// bytes.
pub open spec fn mock_verifies(report: Seq<u8>, expected_nonce: Seq<u8>) -> bool {
    let k = mock_nonce_len(expected_nonce.len());
    report.len() >= expected_nonce.len() && report.take(k as int) == expected_nonce.take(k as int)
}

/// A vector of `n` zero bytes.
fn zero_vec(n: usize) -> (v: Vec<u8>)
    ensures
        v@ == zero_bytes(n as nat),
{
    let mut v = Vec::new();
    let mut i: usize = 0;
    while i < n
        invariant
            i <= n,
            v@ == zero_bytes(i as nat),
        decreases n - i,
    {
        v.push(0u8);
        i = i + 1;
        assert(v@ =~= zero_bytes(i as nat));
    }
    v
}

/// Whether the first `k` bytes of `a` and `b` are equal.
fn prefix_equal(a: &[u8], b: &[u8], k: usize) -> (r: bool)
    requires
        k <= a@.len(),
        k <= b@.len(),
    ensures
        r == (a@.take(k as int) == b@.take(k as int)),
{
    let mut i: usize = 0;
    while i < k
        invariant
            i <= k,
            k <= a@.len(),
            k <= b@.len(),
            forall|j: int| 0 <= j < i ==> a@[j] == b@[j],
        decreases k - i,
    {
        if a[i] != b[i] {
            assert(a@.take(k as int)[i as int] != b@.take(k as int)[i as int]);
            return false;
        }
        i = i + 1;
    }
    assert(a@.take(k as int) =~= b@.take(k as int));
    true
}

impl TpmReportGenerator for MockTpmReportGenerator {
    fn generate_report(&self, client_nonce: &[u8], pcr_selection: &[u8]) -> (r: Result<
        TpmAttestationResponse,
        Error,
    >)
        ensures
            r matches Ok(resp) && resp.report@ == mock_report(client_nonce@) && resp.signature@
                == zero_bytes(256) && resp.ak_cert@ == zero_bytes(512),
    {
        let k = if client_nonce.len() < 32 {
            client_nonce.len()
        } else {
            32
        };
        let mut report = Vec::new();
        let mut i: usize = 0;
        while i < k
            invariant
                i <= k,
                k == mock_nonce_len(client_nonce@.len()),
                k <= client_nonce@.len(),
                report@ == client_nonce@.take(i as int),
            decreases k - i,
        {
            report.push(client_nonce[i]);
            i = i + 1;
            assert(report@ =~= client_nonce@.take(i as int));
        }
        let zeros = zero_vec(64 - k);
        append_bytes(&mut report, zeros.as_slice());
        let signature = zero_vec(256);
        let ak_cert = zero_vec(512);
        Ok(TpmAttestationResponse::new(report, signature, ak_cert))
    }
}

impl TpmReportVerifier for MockTpmReportVerifier {
    fn verify_report(&self, response: &TpmAttestationResponse, expected_nonce: &[u8]) -> (r: Result<
        bool,
        Error,
    >)
        ensures
            r == Ok::<bool, Error>(mock_verifies(response.report@, expected_nonce@)),
    {
        if response.report.len() >= expected_nonce.len() {
            let k = if expected_nonce.len() < 32 {
                expected_nonce.len()
            } else {
                32
            };
            let verification_result = prefix_equal(response.report.as_slice(), expected_nonce, k);
            Ok(verification_result)
        } else {
            Ok(false)
        }
    }
}

/// The wire form of a TPM request: nonce, PCR selection.
pub open spec fn tpm_request_encoding(nonce: Seq<u8>, pcr_selection: Seq<u8>) -> Seq<u8> {
    prefixed(nonce) + prefixed(pcr_selection)
}

/// Reading a TPM request from the front of `s`: nonce, PCR selection, and
/// what follows.
pub open spec fn spec_read_tpm_request(s: Seq<u8>) -> Result<
    (Seq<u8>, Seq<u8>, Seq<u8>),
    InvalidMessage,
> {
    match spec_read_prefixed(s, "nonce") {
        Err(e) => Err(e),
        Ok((nonce, s1)) => match spec_read_prefixed(s1, "pcr_selection") {
            Err(e) => Err(e),
            Ok((pcr, rest)) => Ok((nonce, pcr, rest)),
        },
    }
}

/// The wire form of a TPM response: report, signature, AK certificate.
pub open spec fn tpm_response_encoding(report: Seq<u8>, signature: Seq<u8>, ak_cert: Seq<u8>) -> Seq<
    u8,
> {
    prefixed(report) + prefixed(signature) + prefixed(ak_cert)
}

/// Reading a TPM response from the front of `s`: report, signature, AK
/// certificate, and what follows.
pub open spec fn spec_read_tpm_response(s: Seq<u8>) -> Result<
    (Seq<u8>, Seq<u8>, Seq<u8>, Seq<u8>),
    InvalidMessage,
> {
    match spec_read_prefixed(s, "report") {
        Err(e) => Err(e),
        Ok((report, s1)) => match spec_read_prefixed(s1, "signature") {
            Err(e) => Err(e),
            Ok((signature, s2)) => match spec_read_prefixed(s2, "ak_cert") {
                Err(e) => Err(e),
                Ok((ak_cert, rest)) => Ok((report, signature, ak_cert, rest)),
            },
        },
    }
}

impl TpmAttestationRequest {
    pub fn new(nonce: Vec<u8>, pcr_selection: Vec<u8>) -> (r: Self)
        ensures
            r.nonce == nonce,
            r.pcr_selection == pcr_selection,
    {
        Self { nonce, pcr_selection }
    }

    /// Appends the wire form. Each length field holds the byte count modulo 2^16.
    pub fn encode(&self, bytes: &mut Vec<u8>)
        ensures
            final(bytes)@ == old(bytes)@ + tpm_request_encoding(self.nonce@, self.pcr_selection@),
    {
        encode_prefixed(self.nonce.as_slice(), bytes);
        encode_prefixed(self.pcr_selection.as_slice(), bytes);
        assert(bytes@ =~= old(bytes)@ + tpm_request_encoding(self.nonce@, self.pcr_selection@));
    }

    /// Reads a TPM request from the front of `r`.
    pub fn read(r: &mut Reader) -> (res: Result<Self, InvalidMessage>)
        ensures
            match spec_read_tpm_request(old(r)@) {
                Ok((nonce, pcr, rest)) => res matches Ok(x) && x.nonce@ == nonce && x.pcr_selection@
                    == pcr && final(r)@ == rest,
                Err(e) => res == Err::<Self, InvalidMessage>(e),
            },
    {
        let nonce = read_prefixed(r, "nonce")?;
        let pcr_selection = read_prefixed(r, "pcr_selection")?;
        Ok(Self { nonce, pcr_selection })
    }
}

impl TpmAttestationResponse {
    pub fn new(report: Vec<u8>, signature: Vec<u8>, ak_cert: Vec<u8>) -> (r: Self)
        ensures
            r.report == report,
            r.signature == signature,
            r.ak_cert == ak_cert,
    {
        Self { report, signature, ak_cert }
    }

    /// Appends the wire form. Each length field holds the byte count modulo 2^16.
    pub fn encode(&self, bytes: &mut Vec<u8>)
        ensures
            final(bytes)@ == old(bytes)@ + tpm_response_encoding(
                self.report@,
                self.signature@,
                self.ak_cert@,
            ),
    {
        encode_prefixed(self.report.as_slice(), bytes);
        encode_prefixed(self.signature.as_slice(), bytes);
        encode_prefixed(self.ak_cert.as_slice(), bytes);
        assert(bytes@ =~= old(bytes)@ + tpm_response_encoding(
            self.report@,
            self.signature@,
            self.ak_cert@,
        ));
    }

    /// Reads a TPM response from the front of `r`.
    pub fn read(r: &mut Reader) -> (res: Result<Self, InvalidMessage>)
        ensures
            match spec_read_tpm_response(old(r)@) {
                Ok((report, signature, ak_cert, rest)) => res matches Ok(x) && x.report@ == report
                    && x.signature@ == signature && x.ak_cert@ == ak_cert && final(r)@ == rest,
                Err(e) => res == Err::<Self, InvalidMessage>(e),
            },
    {
        let report = read_prefixed(r, "report")?;
        let signature = read_prefixed(r, "signature")?;
        let ak_cert = read_prefixed(r, "ak_cert")?;
        Ok(Self { report, signature, ak_cert })
    }
}

/// A TPM request whose byte strings are at most 2^16 - 1 bytes reads back as
/// written, leaving what follows it.
pub proof fn lemma_tpm_request_roundtrip(nonce: Seq<u8>, pcr_selection: Seq<u8>, rest: Seq<u8>)
    requires
        nonce.len() <= 0xFFFF,
        pcr_selection.len() <= 0xFFFF,
    ensures
        spec_read_tpm_request(tpm_request_encoding(nonce, pcr_selection) + rest) == Ok::<
            (Seq<u8>, Seq<u8>, Seq<u8>),
            InvalidMessage,
        >((nonce, pcr_selection, rest)),
{
    let s1 = prefixed(pcr_selection) + rest;
    assert(tpm_request_encoding(nonce, pcr_selection) + rest =~= prefixed(nonce) + s1);
    lemma_prefixed_roundtrip(nonce, s1, "nonce");
    lemma_prefixed_roundtrip(pcr_selection, rest, "pcr_selection");
}

/// A TPM request read from the front of `s` was written there, and its byte
/// strings are at most 2^16 - 1 bytes.
pub proof fn lemma_tpm_request_inverse(s: Seq<u8>)
    ensures
        spec_read_tpm_request(s) matches Ok((nonce, pcr, rest)) ==> nonce.len() <= 0xFFFF
            && pcr.len() <= 0xFFFF && s == tpm_request_encoding(nonce, pcr) + rest,
{
    if let Ok((nonce, pcr, rest)) = spec_read_tpm_request(s) {
        lemma_prefixed_inverse(s, "nonce");
        let (_, s1) = spec_read_prefixed(s, "nonce").unwrap();
        lemma_prefixed_inverse(s1, "pcr_selection");
        assert(s =~= tpm_request_encoding(nonce, pcr) + rest);
    }
}

/// A TPM response whose byte strings are at most 2^16 - 1 bytes reads back
/// as written, leaving what follows it.
pub proof fn lemma_tpm_response_roundtrip(
    report: Seq<u8>,
    signature: Seq<u8>,
    ak_cert: Seq<u8>,
    rest: Seq<u8>,
)
    requires
        report.len() <= 0xFFFF,
        signature.len() <= 0xFFFF,
        ak_cert.len() <= 0xFFFF,
    ensures
        spec_read_tpm_response(tpm_response_encoding(report, signature, ak_cert) + rest) == Ok::<
            (Seq<u8>, Seq<u8>, Seq<u8>, Seq<u8>),
            InvalidMessage,
        >((report, signature, ak_cert, rest)),
{
    let s2 = prefixed(ak_cert) + rest;
    let s1 = prefixed(signature) + s2;
    assert(tpm_response_encoding(report, signature, ak_cert) + rest =~= prefixed(report) + s1);
    lemma_prefixed_roundtrip(report, s1, "report");
    lemma_prefixed_roundtrip(signature, s2, "signature");
    lemma_prefixed_roundtrip(ak_cert, rest, "ak_cert");
}

/// A TPM response read from the front of `s` was written there, and its byte
/// strings are at most 2^16 - 1 bytes.
pub proof fn lemma_tpm_response_inverse(s: Seq<u8>)
    ensures
        spec_read_tpm_response(s) matches Ok((report, signature, ak_cert, rest)) ==> report.len()
            <= 0xFFFF && signature.len() <= 0xFFFF && ak_cert.len() <= 0xFFFF && s
            == tpm_response_encoding(report, signature, ak_cert) + rest,
{
    if let Ok((report, signature, ak_cert, rest)) = spec_read_tpm_response(s) {
        lemma_prefixed_inverse(s, "report");
        let (_, s1) = spec_read_prefixed(s, "report").unwrap();
        lemma_prefixed_inverse(s1, "signature");
        let (_, s2) = spec_read_prefixed(s1, "signature").unwrap();
        lemma_prefixed_inverse(s2, "ak_cert");
        assert(s =~= tpm_response_encoding(report, signature, ak_cert) + rest);
    }
}

/// The mock verifier accepts the mock report for a nonce of at most 64 bytes.
pub proof fn lemma_mock_report_verifies(nonce: Seq<u8>)
    requires
        nonce.len() <= 64,
    ensures
        mock_verifies(mock_report(nonce), nonce),
{
    let k = mock_nonce_len(nonce.len());
    assert(mock_report(nonce).take(k as int) =~= nonce.take(k as int));
}

/// The mock verifier rejects the mock report for any other nonce of the
/// same length, up to 32 bytes.
pub proof fn lemma_mock_report_binds_nonce(nonce: Seq<u8>, other: Seq<u8>)
    requires
        nonce.len() <= 32,
        other.len() == nonce.len(),
        other != nonce,
    ensures
        !mock_verifies(mock_report(nonce), other),
{
    let k = nonce.len();
    assert(mock_report(nonce).take(k as int) =~= nonce);
    assert(other.take(k as int) =~= other);
}


/// A TPM request is written as the nonce's byte count in big-endian (high
/// byte, low byte), the nonce unchanged, the PCR selection's byte count in
/// big-endian, and the PCR selection unchanged.
pub proof fn lemma_tpm_request_layout(nonce: Seq<u8>, pcr_selection: Seq<u8>)
    requires
        nonce.len() <= 0xFFFF,
        pcr_selection.len() <= 0xFFFF,
    ensures
        ({
            let e = tpm_request_encoding(nonce, pcr_selection);
            let n = nonce.len() as int;
            &&& e.len() == n + pcr_selection.len() + 4
            &&& e[0] == nonce.len() / 256
            &&& e[1] == nonce.len() % 256
            &&& e.subrange(2, n + 2) == nonce
            &&& e[n + 2] == pcr_selection.len() / 256
            &&& e[n + 3] == pcr_selection.len() % 256
            &&& e.subrange(n + 4, e.len() as int) == pcr_selection
        }),
{
    lemma_prefixed_layout(nonce);
    lemma_prefixed_layout(pcr_selection);
    let e = tpm_request_encoding(nonce, pcr_selection);
    let n = nonce.len() as int;
    assert(e =~= seq![(nonce.len() / 256) as u8, (nonce.len() % 256) as u8] + nonce + seq![(pcr_selection.len() / 256) as u8, (pcr_selection.len() % 256) as u8] + pcr_selection);
    assert(e.subrange(2, n + 2) =~= nonce);
    assert(e.subrange(n + 4, e.len() as int) =~= pcr_selection);
}

/// Bytes laid out as a TPM request (the nonce and the PCR selection, each
/// behind its big-endian byte count) read as that nonce and PCR selection,
/// leaving what follows.
pub proof fn lemma_read_tpm_request_layout(nonce: Seq<u8>, pcr_selection: Seq<u8>, rest: Seq<u8>)
    requires
        nonce.len() <= 0xFFFF,
        pcr_selection.len() <= 0xFFFF,
    ensures
        spec_read_tpm_request(seq![(nonce.len() / 256) as u8, (nonce.len() % 256) as u8] + nonce + seq![(pcr_selection.len() / 256) as u8, (pcr_selection.len() % 256) as u8] + pcr_selection + rest) == Ok::<
            (Seq<u8>, Seq<u8>, Seq<u8>),
            InvalidMessage,
        >((nonce, pcr_selection, rest)),
{
    let s1 = seq![(pcr_selection.len() / 256) as u8, (pcr_selection.len() % 256) as u8] + pcr_selection + rest;
    assert(seq![(nonce.len() / 256) as u8, (nonce.len() % 256) as u8] + nonce + seq![(pcr_selection.len() / 256) as u8, (pcr_selection.len() % 256) as u8] + pcr_selection + rest =~= seq![(nonce.len() / 256) as u8, (nonce.len() % 256) as u8] + nonce + s1);
    lemma_read_prefixed_layout(nonce, s1, "nonce");
    lemma_read_prefixed_layout(pcr_selection, rest, "pcr_selection");
}

/// A TPM response is written as the report, the signature and the AK
/// certificate, each as its byte count in big-endian (high byte, low byte)
/// followed by its bytes unchanged.
pub proof fn lemma_tpm_response_layout(report: Seq<u8>, signature: Seq<u8>, ak_cert: Seq<u8>)
    requires
        report.len() <= 0xFFFF,
        signature.len() <= 0xFFFF,
        ak_cert.len() <= 0xFFFF,
    ensures
        ({
            let e = tpm_response_encoding(report, signature, ak_cert);
            let a = report.len() as int;
            let b = a + 2 + signature.len();
            &&& e.len() == b + 4 + ak_cert.len()
            &&& e[0] == report.len() / 256
            &&& e[1] == report.len() % 256
            &&& e.subrange(2, a + 2) == report
            &&& e[a + 2] == signature.len() / 256
            &&& e[a + 3] == signature.len() % 256
            &&& e.subrange(a + 4, b + 2) == signature
            &&& e[b + 2] == ak_cert.len() / 256
            &&& e[b + 3] == ak_cert.len() % 256
            &&& e.subrange(b + 4, e.len() as int) == ak_cert
        }),
{
    lemma_prefixed_layout(report);
    lemma_prefixed_layout(signature);
    lemma_prefixed_layout(ak_cert);
    let e = tpm_response_encoding(report, signature, ak_cert);
    let a = report.len() as int;
    let b = a + 2 + signature.len();
    assert(e =~= seq![(report.len() / 256) as u8, (report.len() % 256) as u8] + report + seq![(signature.len() / 256) as u8, (signature.len() % 256) as u8] + signature + seq![(ak_cert.len() / 256) as u8, (ak_cert.len() % 256) as u8] + ak_cert);
    assert(e.subrange(2, a + 2) =~= report);
    assert(e.subrange(a + 4, b + 2) =~= signature);
    assert(e.subrange(b + 4, e.len() as int) =~= ak_cert);
}

/// Bytes laid out as a TPM response (report, signature and AK certificate,
/// each behind its big-endian byte count) read as those three byte strings,
/// leaving what follows.
pub proof fn lemma_read_tpm_response_layout(
    report: Seq<u8>,
    signature: Seq<u8>,
    ak_cert: Seq<u8>,
    rest: Seq<u8>,
)
    requires
        report.len() <= 0xFFFF,
        signature.len() <= 0xFFFF,
        ak_cert.len() <= 0xFFFF,
    ensures
        spec_read_tpm_response(seq![(report.len() / 256) as u8, (report.len() % 256) as u8] + report + seq![(signature.len() / 256) as u8, (signature.len() % 256) as u8] + signature + seq![(ak_cert.len() / 256) as u8, (ak_cert.len() % 256) as u8] + ak_cert + rest) == Ok::<
            (Seq<u8>, Seq<u8>, Seq<u8>, Seq<u8>),
            InvalidMessage,
        >((report, signature, ak_cert, rest)),
{
    let s2 = seq![(ak_cert.len() / 256) as u8, (ak_cert.len() % 256) as u8] + ak_cert + rest;
    let s1 = seq![(signature.len() / 256) as u8, (signature.len() % 256) as u8] + signature + s2;
    assert(seq![(report.len() / 256) as u8, (report.len() % 256) as u8] + report + seq![(signature.len() / 256) as u8, (signature.len() % 256) as u8] + signature + seq![(ak_cert.len() / 256) as u8, (ak_cert.len() % 256) as u8] + ak_cert + rest =~= seq![(report.len() / 256) as u8, (report.len() % 256) as u8] + report + s1);
    assert(s1 =~= seq![(signature.len() / 256) as u8, (signature.len() % 256) as u8] + signature + s2);
    lemma_read_prefixed_layout(report, s1, "report");
    lemma_read_prefixed_layout(signature, s2, "signature");
    lemma_read_prefixed_layout(ak_cert, rest, "ak_cert");
}

} // verus!
