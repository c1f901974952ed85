//! Attestation technologies, the request a peer sends for a report, the
//! report that answers it, and the roles that produce and check reports.
use vstd::prelude::*;
use vstd::string::*;
use std::sync::Arc;
use crate::error::{Error, InvalidMessage};
use crate::msgs::codec::{
    be_u32, encode_prefixed, encode_u32, lemma_be_u32_value, lemma_prefixed_inverse,
    lemma_prefixed_layout, lemma_prefixed_roundtrip, lemma_read_prefixed_layout,
    lemma_read_u32_value, lemma_u32_inverse, lemma_u32_roundtrip, prefixed, read_prefixed, read_u32, spec_read_prefixed,
    spec_read_u32, Reader,
};
use crate::text::{hex_padded, lemma_hex_padded_value, numeral_value, push_hex_padded};

pub mod tpm;

verus! {

/// An attestation technology, by its registered number.
#[derive(Clone, Copy, PartialEq, Eq, Structural, Hash, Debug)]
pub struct AttestationType(pub u32);

/// The first number of the custom technologies.
pub const CUSTOM_START: u32 = 0x0004;

/// What `description` gives for the technology numbered `v`.
pub open spec fn spec_description(v: u32) -> Seq<char> {
    if v == 1 {
        "Trusted Platform Module 2.0"@
    } else if v == 2 {
        "Intel Software Guard Extensions"@
    } else if v == 3 {
        "AMD Secure Encrypted Virtualization"@
    } else if v >= CUSTOM_START {
        "Custom Attestation Technology"@
    } else {
        "Unknown Attestation Technology"@
    }
}

/// What `short_name` gives for the technology numbered `v`.
pub open spec fn spec_short_name(v: u32) -> Seq<char> {
    if v == 1 {
        "TPM"@
    } else if v == 2 {
        "SGX"@
    } else if v == 3 {
        "SEV"@
    } else if v >= CUSTOM_START {
        "Custom-"@ + hex_padded((v - CUSTOM_START) as nat, 4)
    } else {
        "Unknown"@
    }
}

/// The display name of the technology numbered `v`.
pub open spec fn spec_display_name(v: u32) -> Seq<char> {
    if v == 1 {
        "TPM"@
    } else if v == 2 {
        "SGX"@
    } else if v == 3 {
        "SEV"@
    } else if v == 4 {
        "TrustZone"@
    } else if v == 5 {
        "RA-TLS"@
    } else if v >= CUSTOM_START {
        "Custom(0x"@ + hex_padded((v - CUSTOM_START) as nat, 4) + ")"@
    } else {
        "Unknown"@
    }
}

/// The number among the custom technologies of the technology numbered `v`,
/// for a custom one.
pub open spec fn spec_custom_id(v: u32) -> Option<u32> {
    if v >= CUSTOM_START {
        Some((v - CUSTOM_START) as u32)
    } else {
        None
    }
}

/// The long debug text of the technology numbered `v`.
pub open spec fn spec_debug_alternate(v: u32) -> Seq<char> {
    "AttestationType { name: \""@ + spec_display_name(v) + "\", id: 0x"@ + hex_padded(v as nat, 4)
        + ", description: \""@ + spec_description(v) + "\" }"@
}

impl AttestationType {
    /// Trusted Platform Module 2.0.
    pub fn tpm() -> (r: Self)
        ensures
            r.0 == 1,
    {
        AttestationType(0x0001)
    }

    /// Intel Software Guard Extensions.
    pub fn sgx() -> (r: Self)
        ensures
            r.0 == 2,
    {
        AttestationType(0x0002)
    }

    /// AMD Secure Encrypted Virtualization.
    pub fn sev() -> (r: Self)
        ensures
            r.0 == 3,
    {
        AttestationType(0x0003)
    }

    /// The first number of the custom technologies.
    pub const CUSTOM_START: u32 = 0x0004;

    /// The custom technology numbered `id` among the custom ones.
    pub fn custom(id: u32) -> (r: Self)
        requires
            id <= u32::MAX - CUSTOM_START,
        ensures
            r.0 == CUSTOM_START + id,
    {
        AttestationType(CUSTOM_START + id)
    }

    /// A description of the technology.
    pub fn description(&self) -> (r: &'static str)
        ensures
            r@ == spec_description(self.0),
    {
        if self.0 == 0x0001 {
            "Trusted Platform Module 2.0"
        } else if self.0 == 0x0002 {
            "Intel Software Guard Extensions"
        } else if self.0 == 0x0003 {
            "AMD Secure Encrypted Virtualization"
        } else if self.0 >= CUSTOM_START {
            "Custom Attestation Technology"
        } else {
            "Unknown Attestation Technology"
        }
    }

    /// A short name: `TPM`, `SGX`, `SEV`, `Custom-` and the custom number in
    /// four or more hexadecimal digits, or `Unknown`.
    pub fn short_name(&self) -> (r: String)
        ensures
            r@ == spec_short_name(self.0),
    {
        if self.0 == 0x0001 {
            String::from_str("TPM")
        } else if self.0 == 0x0002 {
            String::from_str("SGX")
        } else if self.0 == 0x0003 {
            String::from_str("SEV")
        } else if self.0 >= CUSTOM_START {
            let mut s = String::from_str("Custom-");
            push_hex_padded(&mut s, self.0 - CUSTOM_START, 4);
            s
        } else {
            String::from_str("Unknown")
        }
    }

    /// Whether the technology is a custom one.
    pub fn is_custom(&self) -> (r: bool)
        ensures
            r == (self.0 >= CUSTOM_START),
    {
        self.0 >= CUSTOM_START
    }

    /// The number among the custom technologies, for a custom one.
    pub fn custom_id(&self) -> (r: Option<u32>)
        ensures
            r == spec_custom_id(self.0),
    {
        if self.is_custom() {
            Some(self.0 - CUSTOM_START)
        } else {
            None
        }
    }

    /// The display name: `TPM`, `SGX`, `SEV`, `TrustZone`, `RA-TLS`,
    /// `Custom(0x` and the custom number in hexadecimal `)`, or `Unknown`.
    pub fn to_string(&self) -> (r: String)
        ensures
            r@ == spec_display_name(self.0),
    {
        if self.0 == 0x0001 {
            String::from_str("TPM")
        } else if self.0 == 0x0002 {
            String::from_str("SGX")
        } else if self.0 == 0x0003 {
            String::from_str("SEV")
        } else if self.0 == 0x0004 {
            String::from_str("TrustZone")
        } else if self.0 == 0x0005 {
            String::from_str("RA-TLS")
        } else if self.0 >= CUSTOM_START {
            let mut s = String::from_str("Custom(0x");
            push_hex_padded(&mut s, self.0 - CUSTOM_START, 4);
            s.append(")");
            s
        } else {
            String::from_str("Unknown")
        }
    }

    /// The debug text: the display name, or with `alternate` the name, the
    /// number in hexadecimal and the description.
    pub fn debug_string(&self, alternate: bool) -> (r: String)
        ensures
            r@ == (if alternate {
                spec_debug_alternate(self.0)
            } else {
                spec_display_name(self.0)
            }),
    {
        if alternate {
            let mut s = String::from_str("AttestationType { name: \"");
            let name = self.to_string();
            s.append(name.as_str());
            s.append("\", id: 0x");
            push_hex_padded(&mut s, self.0, 4);
            s.append(", description: \"");
            s.append(self.description());
            s.append("\" }");
            s
        } else {
            self.to_string()
        }
    }
}

impl From<u32> for AttestationType {
    fn from(value: u32) -> (r: AttestationType)
        ensures
            r.0 == value,
    {
        AttestationType(value)
    }
}

impl vstd::std_specs::convert::FromSpecImpl<u32> for AttestationType {
    open spec fn obeys_from_spec() -> bool {
        true
    }

    open spec fn from_spec(v: u32) -> AttestationType {
        AttestationType(v)
    }
}

impl From<AttestationType> for u32 {
    fn from(value: AttestationType) -> (r: u32)
        ensures
            r == value.0,
    {
        value.0
    }
}

impl vstd::std_specs::convert::FromSpecImpl<AttestationType> for u32 {
    open spec fn obeys_from_spec() -> bool {
        true
    }

    open spec fn from_spec(v: AttestationType) -> u32 {
        v.0
    }
}

/// A request for an attestation report: a fresh nonce, the technology, and
/// data specific to the technology (for a TPM, the PCRs to quote).
#[derive(Debug, Clone)]
pub struct AttestationRequest {
    pub nonce: Vec<u8>,
    pub attestation_type: AttestationType,
    pub data: Vec<u8>,
}

/// An attestation report with its signature and the certificate chain (or
/// public key) that checks the signature.
#[derive(Debug, Clone)]
pub struct AttestationResponse {
    pub report: Vec<u8>,
    pub signature: Vec<u8>,
    pub certificate_chain: Vec<u8>,
    pub attestation_type: AttestationType,
}

/// Produces attestation reports for one technology.
pub trait AttestationReportGenerator: Send + Sync {
    /// The technology of this generator's reports.
    spec fn spec_attestation_type(&self) -> AttestationType;

    /// Whether `result` is an outcome this generator may give for a report
    /// over `nonce` and `tech_specific_data`: each generator says here what
    /// ties its report, or its error, to these two inputs.
    spec fn generates(
        &self,
        nonce: &[u8],
        tech_specific_data: &[u8],
        result: &Result<AttestationResponse, Error>,
    ) -> bool;

    /// The technology of the reports.
    fn get_attestation_type(&self) -> (r: AttestationType)
        ensures
            r == self.spec_attestation_type(),
    ;

    /// A report over `nonce` and the technology's own data.
    fn generate_report(&self, nonce: &[u8], tech_specific_data: &[u8]) -> (r: Result<
        AttestationResponse,
        Error,
    >)
        ensures
            self.generates(nonce, tech_specific_data, &r),
    ;
}

/// Checks attestation reports of one technology.
pub trait AttestationReportVerifier: Send + Sync {
    /// The technology of the reports.
    fn get_attestation_type(&self) -> AttestationType;

    /// Whether `response` is a valid report for `expected_nonce`.
    fn verify_report(&self, response: &AttestationResponse, expected_nonce: &[u8]) -> Result<
        bool,
        Error,
    >;
}

/// What one side asks of its peer, and how it checks and produces reports.
pub struct AttestationConfig {
    pub request: AttestationRequest,
    pub verifier: Arc<dyn AttestationReportVerifier>,
    pub report_generator: Arc<dyn AttestationReportGenerator>,
}

/// The wire form of a request: nonce, technology number, data.
pub open spec fn request_encoding(nonce: Seq<u8>, ty: u32, data: Seq<u8>) -> Seq<u8> {
    prefixed(nonce) + be_u32(ty) + prefixed(data)
}

/// Reading a request from the front of `s`: nonce, technology number, data,
/// and what follows.
pub open spec fn spec_read_request(s: Seq<u8>) -> Result<
    (Seq<u8>, u32, Seq<u8>, Seq<u8>),
    InvalidMessage,
> {
    match spec_read_prefixed(s, "nonce") {
        Err(e) => Err(e),
        Ok((nonce, s1)) => match spec_read_u32(s1) {
            Err(e) => Err(e),
            Ok((ty, s2)) => match spec_read_prefixed(s2, "data") {
                Err(e) => Err(e),
                Ok((data, rest)) => Ok((nonce, ty, data, rest)),
            },
        },
    }
}

/// The wire form of a response: report, signature, certificate chain,
/// technology number.
pub open spec fn response_encoding(report: Seq<u8>, signature: Seq<u8>, chain: Seq<u8>, ty: u32) -> Seq<
    u8,
> {
    prefixed(report) + prefixed(signature) + prefixed(chain) + be_u32(ty)
}

/// Reading a response from the front of `s`: report, signature, certificate
/// chain, technology number, and what follows.
pub open spec fn spec_read_response(s: Seq<u8>) -> Result<
    (Seq<u8>, Seq<u8>, Seq<u8>, u32, Seq<u8>),
    InvalidMessage,
> {
    match spec_read_prefixed(s, "report") {
        Err(e) => Err(e),
        Ok((report, s1)) => match spec_read_prefixed(s1, "signature") {
            Err(e) => Err(e),
            Ok((signature, s2)) => match spec_read_prefixed(s2, "certificate_chain") {
                Err(e) => Err(e),
                Ok((chain, s3)) => match spec_read_u32(s3) {
                    Err(e) => Err(e),
                    Ok((ty, rest)) => Ok((report, signature, chain, ty, rest)),
                },
            },
        },
    }
}

impl AttestationRequest {
    pub fn new(nonce: Vec<u8>, attestation_type: AttestationType, data: Vec<u8>) -> (r: Self)
        ensures
            r.nonce == nonce,
            r.attestation_type == attestation_type,
            r.data == data,
    {
        Self { nonce, attestation_type, data }
    }

    /// Appends the wire form. Each length field holds the byte count modulo 2^16.
    pub fn encode(&self, bytes: &mut Vec<u8>)
        ensures
            final(bytes)@ == old(bytes)@ + request_encoding(
                self.nonce@,
                self.attestation_type.0,
                self.data@,
            ),
    {
        encode_prefixed(self.nonce.as_slice(), bytes);
        encode_u32(self.attestation_type.0, bytes);
        encode_prefixed(self.data.as_slice(), bytes);
        assert(bytes@ =~= old(bytes)@ + request_encoding(
            self.nonce@,
            self.attestation_type.0,
            self.data@,
        ));
    }

    /// Reads a request from the front of `r`.
    pub fn read(r: &mut Reader) -> (res: Result<Self, InvalidMessage>)
        ensures
            match spec_read_request(old(r)@) {
                Ok((nonce, ty, data, rest)) => res matches Ok(x) && x.nonce@ == nonce
                    && x.attestation_type == AttestationType(ty) && x.data@ == data && final(r)@
                    == rest,
                Err(e) => res == Err::<Self, InvalidMessage>(e),
            },
    {
        let nonce = read_prefixed(r, "nonce")?;
        let attestation_type_raw = read_u32(r)?;
        let attestation_type = AttestationType(attestation_type_raw);
        let data = read_prefixed(r, "data")?;
        Ok(Self { nonce, attestation_type, data })
    }
}

impl AttestationResponse {
    pub fn new(
        report: Vec<u8>,
        signature: Vec<u8>,
        certificate_chain: Vec<u8>,
        attestation_type: AttestationType,
    ) -> (r: Self)
        ensures
            r.report == report,
            r.signature == signature,
            r.certificate_chain == certificate_chain,
            r.attestation_type == attestation_type,
    {
        Self { report, signature, certificate_chain, attestation_type }
    }

    /// Appends the wire form. Each length field holds the byte count modulo 2^16.
    pub fn encode(&self, bytes: &mut Vec<u8>)
        ensures
            final(bytes)@ == old(bytes)@ + response_encoding(
                self.report@,
                self.signature@,
                self.certificate_chain@,
                self.attestation_type.0,
            ),
    {
        encode_prefixed(self.report.as_slice(), bytes);
        encode_prefixed(self.signature.as_slice(), bytes);
        encode_prefixed(self.certificate_chain.as_slice(), bytes);
        encode_u32(self.attestation_type.0, bytes);
        assert(bytes@ =~= old(bytes)@ + response_encoding(
            self.report@,
            self.signature@,
            self.certificate_chain@,
            self.attestation_type.0,
        ));
    }

    /// Reads a response from the front of `r`.
    pub fn read(r: &mut Reader) -> (res: Result<Self, InvalidMessage>)
        ensures
            match spec_read_response(old(r)@) {
                Ok((report, signature, chain, ty, rest)) => res matches Ok(x) && x.report@ == report
                    && x.signature@ == signature && x.certificate_chain@ == chain
                    && x.attestation_type == AttestationType(ty) && final(r)@ == rest,
                Err(e) => res == Err::<Self, InvalidMessage>(e),
            },
    {
        let report = read_prefixed(r, "report")?;
        let signature = read_prefixed(r, "signature")?;
        let certificate_chain = read_prefixed(r, "certificate_chain")?;
        let attestation_type_raw = read_u32(r)?;
        let attestation_type = AttestationType(attestation_type_raw);
        Ok(Self { report, signature, certificate_chain, attestation_type })
    }
}

/// A custom technology's number among the custom ones is the number it was
/// made from.
pub proof fn lemma_custom_id_roundtrip(id: u32)
    requires
        id <= u32::MAX - CUSTOM_START,
    ensures
        spec_custom_id((CUSTOM_START + id) as u32) == Some(id),
{
}

/// A technology is custom exactly when it has a number among the custom
/// ones, and then it is made from that number.
pub proof fn lemma_custom_iff_custom_id(v: u32)
    ensures
        (v >= CUSTOM_START) <==> spec_custom_id(v) is Some,
        spec_custom_id(v) matches Some(id) ==> CUSTOM_START + id == v,
{
}

/// A request whose nonce and data are at most 2^16 - 1 bytes reads back as
/// written, leaving what follows it.
pub proof fn lemma_request_roundtrip(nonce: Seq<u8>, ty: u32, data: Seq<u8>, rest: Seq<u8>)
    requires
        nonce.len() <= 0xFFFF,
        data.len() <= 0xFFFF,
    ensures
        spec_read_request(request_encoding(nonce, ty, data) + rest) == Ok::<
            (Seq<u8>, u32, Seq<u8>, Seq<u8>),
            InvalidMessage,
        >((nonce, ty, data, rest)),
{
    let s2 = prefixed(data) + rest;
    let s1 = be_u32(ty) + s2;
    let s = prefixed(nonce) + s1;
    assert(request_encoding(nonce, ty, data) + rest =~= s);
    lemma_prefixed_roundtrip(nonce, s1, "nonce");
    lemma_u32_roundtrip(ty, s2);
    lemma_prefixed_roundtrip(data, rest, "data");
}

/// A request read from the front of `s` was written there, and its nonce
/// and data are at most 2^16 - 1 bytes.
pub proof fn lemma_request_inverse(s: Seq<u8>)
    ensures
        spec_read_request(s) matches Ok((nonce, ty, data, rest)) ==> nonce.len() <= 0xFFFF
            && data.len() <= 0xFFFF && s == request_encoding(nonce, ty, data) + rest,
{
    if let Ok((nonce, ty, data, rest)) = spec_read_request(s) {
        lemma_prefixed_inverse(s, "nonce");
        let (_, s1) = spec_read_prefixed(s, "nonce").unwrap();
        lemma_u32_inverse(s1);
        let (_, s2) = spec_read_u32(s1).unwrap();
        lemma_prefixed_inverse(s2, "data");
        assert(s =~= request_encoding(nonce, ty, data) + rest);
    }
}

/// A response whose byte strings are at most 2^16 - 1 bytes reads back as
/// written, leaving what follows it.
pub proof fn lemma_response_roundtrip(
    report: Seq<u8>,
    signature: Seq<u8>,
    chain: Seq<u8>,
    ty: u32,
    rest: Seq<u8>,
)
    requires
        report.len() <= 0xFFFF,
        signature.len() <= 0xFFFF,
        chain.len() <= 0xFFFF,
    ensures
        spec_read_response(response_encoding(report, signature, chain, ty) + rest) == Ok::<
            (Seq<u8>, Seq<u8>, Seq<u8>, u32, Seq<u8>),
            InvalidMessage,
        >((report, signature, chain, ty, rest)),
{
    let s3 = be_u32(ty) + rest;
    let s2 = prefixed(chain) + s3;
    let s1 = prefixed(signature) + s2;
    let s = prefixed(report) + s1;
    assert(response_encoding(report, signature, chain, ty) + rest =~= s);
    lemma_prefixed_roundtrip(report, s1, "report");
    lemma_prefixed_roundtrip(signature, s2, "signature");
    lemma_prefixed_roundtrip(chain, s3, "certificate_chain");
    lemma_u32_roundtrip(ty, rest);
}

/// A response read from the front of `s` was written there, and its byte
/// strings are at most 2^16 - 1 bytes.
pub proof fn lemma_response_inverse(s: Seq<u8>)
    ensures
        spec_read_response(s) matches Ok((report, signature, chain, ty, rest)) ==> report.len()
            <= 0xFFFF && signature.len() <= 0xFFFF && chain.len() <= 0xFFFF && s
            == response_encoding(report, signature, chain, ty) + rest,
{
    if let Ok((report, signature, chain, ty, rest)) = spec_read_response(s) {
        lemma_prefixed_inverse(s, "report");
        let s1 = spec_read_prefixed(s, "report").unwrap().1;
        lemma_prefixed_inverse(s1, "signature");
        let s2 = spec_read_prefixed(s1, "signature").unwrap().1;
        lemma_prefixed_inverse(s2, "certificate_chain");
        let s3 = spec_read_prefixed(s2, "certificate_chain").unwrap().1;
        lemma_u32_inverse(s3);
        assert(s =~= response_encoding(report, signature, chain, ty) + rest);
    }
}


/// A request is written as the nonce's byte count in big-endian (high byte,
/// low byte), the nonce unchanged, the four bytes of the technology number
/// most significant first, the data's byte count in big-endian, and the data
/// unchanged.
pub proof fn lemma_request_layout(nonce: Seq<u8>, ty: u32, data: Seq<u8>)
    requires
        nonce.len() <= 0xFFFF,
        data.len() <= 0xFFFF,
    ensures
        ({
            let e = request_encoding(nonce, ty, data);
            let n = nonce.len() as int;
            &&& e.len() == n + data.len() + 8
            &&& e[0] == nonce.len() / 256
            &&& e[1] == nonce.len() % 256
            &&& e.subrange(2, n + 2) == nonce
            &&& e[n + 2] * 0x100_0000 + e[n + 3] * 0x1_0000 + e[n + 4] * 256 + e[n + 5] == ty
            &&& e[n + 6] == data.len() / 256
            &&& e[n + 7] == data.len() % 256
            &&& e.subrange(n + 8, e.len() as int) == data
        }),
{
    lemma_prefixed_layout(nonce);
    lemma_prefixed_layout(data);
    lemma_be_u32_value(ty);
    let e = request_encoding(nonce, ty, data);
    let n = nonce.len() as int;
    let b = be_u32(ty);
    assert(e =~= seq![(nonce.len() / 256) as u8, (nonce.len() % 256) as u8] + nonce + b + seq![(data.len() / 256) as u8, (data.len() % 256) as u8] + data);
    assert(e.subrange(2, n + 2) =~= nonce);
    assert(e.subrange(n + 8, e.len() as int) =~= data);
    assert(e[n + 2] == b[0] && e[n + 3] == b[1] && e[n + 4] == b[2] && e[n + 5] == b[3]);
}

/// Bytes laid out as a request (the nonce's big-endian byte count, the nonce,
/// four bytes of technology number, the data's big-endian byte count, the
/// data) read as that nonce, the base-256 value of the four bytes, and that
/// data, leaving what follows.
pub proof fn lemma_read_request_layout(
    nonce: Seq<u8>,
    b0: u8,
    b1: u8,
    b2: u8,
    b3: u8,
    data: Seq<u8>,
    rest: Seq<u8>,
)
    requires
        nonce.len() <= 0xFFFF,
        data.len() <= 0xFFFF,
    ensures
        spec_read_request(seq![(nonce.len() / 256) as u8, (nonce.len() % 256) as u8] + nonce + seq![b0, b1, b2, b3] + seq![(data.len() / 256) as u8, (data.len() % 256) as u8] + data + rest) == Ok::<
            (Seq<u8>, u32, Seq<u8>, Seq<u8>),
            InvalidMessage,
        >((nonce, (b0 * 0x100_0000 + b1 * 0x1_0000 + b2 * 256 + b3) as u32, data, rest)),
{
    let s2 = seq![(data.len() / 256) as u8, (data.len() % 256) as u8] + data + rest;
    let s1 = seq![b0, b1, b2, b3] + s2;
    assert(seq![(nonce.len() / 256) as u8, (nonce.len() % 256) as u8] + nonce + seq![b0, b1, b2, b3] + seq![(data.len() / 256) as u8, (data.len() % 256) as u8] + data + rest =~= seq![(nonce.len() / 256) as u8, (nonce.len() % 256) as u8] + nonce + s1);
    assert(seq![(data.len() / 256) as u8, (data.len() % 256) as u8] + data + rest =~= seq![(data.len() / 256) as u8, (data.len() % 256) as u8] + data + rest);
    lemma_read_prefixed_layout(nonce, s1, "nonce");
    lemma_read_u32_value(b0, b1, b2, b3, s2);
    lemma_read_prefixed_layout(data, rest, "data");
}

/// A response is written as the report, the signature and the certificate
/// chain, each as its byte count in big-endian (high byte, low byte)
/// followed by its bytes unchanged, and then the four bytes of the technology
/// number most significant first.
pub proof fn lemma_response_layout(report: Seq<u8>, signature: Seq<u8>, chain: Seq<u8>, ty: u32)
    requires
        report.len() <= 0xFFFF,
        signature.len() <= 0xFFFF,
        chain.len() <= 0xFFFF,
    ensures
        ({
            let e = response_encoding(report, signature, chain, ty);
            let a = report.len() as int;
            let b = a + 2 + signature.len();
            let c = b + 2 + chain.len();
            &&& e.len() == c + 6
            &&& e[0] == report.len() / 256
            &&& e[1] == report.len() % 256
            &&& e.subrange(2, a + 2) == report
            &&& e[a + 2] == signature.len() / 256
            &&& e[a + 3] == signature.len() % 256
            &&& e.subrange(a + 4, b + 2) == signature
            &&& e[b + 2] == chain.len() / 256
            &&& e[b + 3] == chain.len() % 256
            &&& e.subrange(b + 4, c + 2) == chain
            &&& e[c + 2] * 0x100_0000 + e[c + 3] * 0x1_0000 + e[c + 4] * 256 + e[c + 5] == ty
        }),
{
    lemma_prefixed_layout(report);
    lemma_prefixed_layout(signature);
    lemma_prefixed_layout(chain);
    lemma_be_u32_value(ty);
    let e = response_encoding(report, signature, chain, ty);
    let a = report.len() as int;
    let b = a + 2 + signature.len();
    let c = b + 2 + chain.len();
    let t = be_u32(ty);
    assert(e =~= seq![(report.len() / 256) as u8, (report.len() % 256) as u8] + report + seq![(signature.len() / 256) as u8, (signature.len() % 256) as u8] + signature + seq![(chain.len() / 256) as u8, (chain.len() % 256) as u8] + chain + t);
    assert(e.subrange(2, a + 2) =~= report);
    assert(e.subrange(a + 4, b + 2) =~= signature);
    assert(e.subrange(b + 4, c + 2) =~= chain);
    assert(e[c + 2] == t[0] && e[c + 3] == t[1] && e[c + 4] == t[2] && e[c + 5] == t[3]);
}

/// Bytes laid out as a response (report, signature and certificate chain,
/// each behind its big-endian byte count, then four bytes of technology
/// number) read as those three byte strings and the base-256 value of the
/// four bytes, leaving what follows.
pub proof fn lemma_read_response_layout(
    report: Seq<u8>,
    signature: Seq<u8>,
    chain: Seq<u8>,
    b0: u8,
    b1: u8,
    b2: u8,
    b3: u8,
    rest: Seq<u8>,
)
    requires
        report.len() <= 0xFFFF,
        signature.len() <= 0xFFFF,
        chain.len() <= 0xFFFF,
    ensures
        spec_read_response(
            seq![(report.len() / 256) as u8, (report.len() % 256) as u8] + report + seq![(signature.len() / 256) as u8, (signature.len() % 256) as u8] + signature + seq![(chain.len() / 256) as u8, (chain.len() % 256) as u8] + chain + seq![b0, b1, b2, b3] + rest,
        ) == Ok::<(Seq<u8>, Seq<u8>, Seq<u8>, u32, Seq<u8>), InvalidMessage>(
            (report, signature, chain, (b0 * 0x100_0000 + b1 * 0x1_0000 + b2 * 256 + b3) as u32, rest),
        ),
{
    let s3 = seq![b0, b1, b2, b3] + rest;
    let s2 = seq![(chain.len() / 256) as u8, (chain.len() % 256) as u8] + chain + s3;
    let s1 = seq![(signature.len() / 256) as u8, (signature.len() % 256) as u8] + signature + s2;
    assert(seq![(report.len() / 256) as u8, (report.len() % 256) as u8] + report + seq![(signature.len() / 256) as u8, (signature.len() % 256) as u8] + signature + seq![(chain.len() / 256) as u8, (chain.len() % 256) as u8] + chain + seq![b0, b1, b2, b3] + rest =~= seq![(report.len() / 256) as u8, (report.len() % 256) as u8] + report
        + s1);
    assert(s1 =~= seq![(signature.len() / 256) as u8, (signature.len() % 256) as u8] + signature + s2);
    assert(s2 =~= seq![(chain.len() / 256) as u8, (chain.len() % 256) as u8] + chain + s3);
    lemma_read_prefixed_layout(report, s1, "report");
    lemma_read_prefixed_layout(signature, s2, "signature");
    lemma_read_prefixed_layout(chain, s3, "certificate_chain");
    lemma_read_u32_value(b0, b1, b2, b3, rest);
}


/// The short name of a custom technology is `Custom-` followed by at least
/// four hexadecimal digits whose value is its custom number, and its display
/// name (from number 6 up) is `Custom(0x`, such digits, and `)`.
pub proof fn lemma_custom_names(v: u32)
    requires
        v >= CUSTOM_START,
    ensures
        spec_short_name(v).len() >= 11,
        spec_short_name(v).subrange(0, 7) == "Custom-"@,
        numeral_value(spec_short_name(v).skip(7), 16) == v - CUSTOM_START,
        v >= 6 ==> spec_display_name(v).len() >= 14 && spec_display_name(v).subrange(0, 9)
            == "Custom(0x"@ && spec_display_name(v).last() == ')' && numeral_value(
            spec_display_name(v).subrange(9, spec_display_name(v).len() - 1),
            16,
        ) == v - CUSTOM_START,
{
    reveal_strlit("Custom-");
    reveal_strlit("Custom(0x");
    reveal_strlit(")");
    let h = hex_padded((v - CUSTOM_START) as nat, 4);
    lemma_hex_padded_value((v - CUSTOM_START) as nat, 4);
    let sn = spec_short_name(v);
    assert(sn == "Custom-"@ + h);
    assert(sn.subrange(0, 7) =~= "Custom-"@);
    assert(sn.skip(7) =~= h);
    if v >= 6 {
        let dn = spec_display_name(v);
        assert(dn == "Custom(0x"@ + h + ")"@);
        assert(dn.subrange(0, 9) =~= "Custom(0x"@);
        assert(dn.subrange(9, dn.len() - 1) =~= h);
    }
}

} // verus!
