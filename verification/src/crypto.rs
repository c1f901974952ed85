//! The cryptographic primitives the report checks rest on: constant-time
//! comparison (`subtle`), SHA-256 (`sha2`) and RSA-PSS verification (`rsa`).
use vstd::prelude::*;
use vstd::arithmetic::power2::pow2;
use sha2::Digest;
use subtle::ConstantTimeEq;

verus! {

#[verifier::external_type_specification]
#[verifier::external_body]
pub struct ExRsaPublicKey(rsa::RsaPublicKey);

/// The number whose big-endian bytes are `s` (zero for no bytes).
pub open spec fn be_value(s: Seq<u8>) -> nat
    decreases s.len(),
{
    if s.len() == 0 {
        0
    } else {
        be_value(s.drop_last()) * 256 + s.last() as nat
    }
}

/// Whether an RSA public key with the big-endian `modulus` and the public
/// `exponent` passes the checks of `rsa::RsaPublicKey::new`: a modulus of at
/// most 4096 bits, odd and above the exponent, and an odd exponent of at
/// least 2.
pub open spec fn rsa_key_accepted(modulus: Seq<u8>, exponent: nat) -> bool {
    let n = be_value(modulus);
    &&& n < pow2(4096)
    &&& exponent < n
    &&& n % 2 == 1
    &&& exponent % 2 == 1
    &&& exponent >= 2
}

/// Whether `signature` is a valid RSASSA-PSS signature with SHA-256 over the
/// digest `hashed`, under the RSA public key with the big-endian `modulus`
/// and the public `exponent`.
pub uninterp spec fn rsa_pss_sha256_verifies(
    modulus: Seq<u8>,
    exponent: nat,
    hashed: Seq<u8>,
    signature: Seq<u8>,
) -> bool;

/// The SHA-256 digest of `data`.
pub uninterp spec fn sha256(data: Seq<u8>) -> Seq<u8>;

/// An RSA public key that passed `rsa::RsaPublicKey::new`, with the modulus
/// and exponent it was made from.
pub struct RsaVerifyingKey {
    modulus: Vec<u8>,
    exponent: u32,
    key: rsa::RsaPublicKey,
}

impl RsaVerifyingKey {
    /// The big-endian modulus the key was made from.
    pub closed spec fn modulus(&self) -> Seq<u8> {
        self.modulus@
    }

    /// The public exponent the key was made from.
    pub closed spec fn exponent(&self) -> u32 {
        self.exponent
    }
}

/// `subtle::ConstantTimeEq::ct_eq` on two byte slices, as a `bool`: true
/// exactly when the slices have the same length and the same bytes.
#[verifier::external_body]
pub(crate) fn ct_eq_bytes(a: &[u8], b: &[u8]) -> (r: bool)
    ensures
        r == (a@ == b@),
{
    bool::from(a.ct_eq(b))
}

/// `sha2::Sha256::digest`: the SHA-256 digest of `data`, which is 32 bytes.
#[verifier::external_body]
pub(crate) fn sha256_digest(data: &[u8]) -> (r: Vec<u8>)
    ensures
        r@ == sha256(data@),
        r@.len() == 32,
{
    sha2::Sha256::digest(data).to_vec()
}

/// `rsa::RsaPublicKey::new` on the modulus read as a big-endian number
/// (`rsa::BigUint::from_bytes_be`) and the exponent. It succeeds exactly when
/// the key passes the checks that `rsa_key_accepted` lists, and the key
/// remembers the modulus and exponent. On failure it gives the `Debug` text of
/// the `rsa` error, of which nothing is stated.
#[verifier::external_body]
pub(crate) fn rsa_public_key_new(modulus: &[u8], exponent: u32) -> (r: Result<
    RsaVerifyingKey,
    String,
>)
    ensures
        r.is_ok() == rsa_key_accepted(modulus@, exponent as nat),
        r matches Ok(k) ==> k.modulus() == modulus@ && k.exponent() == exponent,
{
    let n = rsa::BigUint::from_bytes_be(modulus);
    match rsa::RsaPublicKey::new(n, rsa::BigUint::from(exponent)) {
        Ok(key) => Ok(RsaVerifyingKey { modulus: modulus.to_vec(), exponent, key }),
        Err(e) => Err(format!("{:?}", e)),
    }
}

/// `rsa::RsaPublicKey::verify` with `rsa::Pss::new::<sha2::Sha256>()`: whether
/// `signature` verifies over the digest `hashed` under the key; the result is
/// named by `rsa_pss_sha256_verifies` over the key's modulus and exponent.
#[verifier::external_body]
pub(crate) fn rsa_pss_sha256_verify(key: &RsaVerifyingKey, hashed: &[u8], signature: &[u8]) -> (r:
    bool)
    ensures
        r == rsa_pss_sha256_verifies(key.modulus(), key.exponent() as nat, hashed@, signature@),
{
    key.key.verify(rsa::Pss::new::<sha2::Sha256>(), hashed, signature).is_ok()
}

} // verus!
