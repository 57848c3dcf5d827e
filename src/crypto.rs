//! The cryptographic primitives this library takes from openssl.
//!
//! Hashes, encodings and signatures are named, not spelled out: `sha256_of`,
//! `base64_of`, `public_pem_of` and `rsa_sha256_signature_of` stand for what the
//! openssl functions compute, and the contracts of the callers speak of them.
use vstd::prelude::*;

verus! {

#[verifier::external_type_specification]
#[verifier::external_body]
pub struct ExErrorStack(openssl::error::ErrorStack);

/// The SHA-256 digest of a byte string.
pub uninterp spec fn sha256_of(data: Seq<u8>) -> Seq<u8>;

/// The standard base64 text (with `=` padding, no line breaks) of a byte string.
pub uninterp spec fn base64_of(data: Seq<u8>) -> Seq<char>;

/// The PEM text of a DER-encoded SubjectPublicKeyInfo holding an RSA key;
/// `None` when the bytes are not such a structure.
pub uninterp spec fn public_pem_of(der: Seq<u8>) -> Option<Seq<char>>;

/// The size in bits of the modulus of the RSA key in a DER-encoded
/// SubjectPublicKeyInfo.
pub uninterp spec fn rsa_modulus_bits_of(public_der: Seq<u8>) -> nat;

/// The length of the base64 text of `n` bytes: four characters for every
/// three bytes or part of three.
pub open spec fn base64_len(n: nat) -> nat {
    4 * ((n + 2) / 3)
}

/// The SubjectPublicKeyInfo DER of the public half of the RSA key in a PKCS#1
/// DER-encoded private key; `None` when the bytes are not such a key.
pub uninterp spec fn rsa_public_der_of(private_der: Seq<u8>) -> Option<Seq<u8>>;

/// Whether the bytes are a PKCS#1 DER-encoded RSA private key whose parameters
/// are consistent (`RSA_check_key`).
pub uninterp spec fn rsa_private_key_consistent(private_der: Seq<u8>) -> bool;

/// The RSASSA-PKCS1-v1_5 signature with SHA-256 of `message` under the
/// consistent PKCS#1 DER-encoded RSA private key `private_der`; `None` when the
/// signature cannot be made.
pub uninterp spec fn rsa_sha256_signature_of(private_der: Seq<u8>, message: Seq<u8>) -> Option<Seq<u8>>;

/// Largest input that `base64_encode` takes: both it and its encoding fit a C `int`.
pub const BASE64_MAX_INPUT: usize = 1_500_000_000;

/// Relies on `openssl::sha::sha256`: the 32-byte SHA-256 digest of `data`.
#[verifier::external_body]
pub(crate) fn sha256(data: &[u8]) -> (r: Vec<u8>)
    ensures
        r@ == sha256_of(data@),
        r@.len() == 32,
{
    openssl::sha::sha256(data).to_vec()
}

/// Relies on `openssl::base64::encode_block`, which encodes `data` as base64
/// text (`EVP_EncodeBlock`: four characters for each started group of three
/// bytes) and panics when the input or output length overflows a C `int`.
#[verifier::external_body]
pub(crate) fn base64_encode(data: &[u8]) -> (r: String)
    requires
        data@.len() <= BASE64_MAX_INPUT,
    ensures
        r@ == base64_of(data@),
        r@.len() == base64_len(data@.len()),
{
    openssl::base64::encode_block(data)
}

/// Relies on `openssl::rsa::Rsa::generate`: a fresh RSA key pair whose modulus
/// has the size `bits`, with exponent 65537, handed out as DER by
/// `Rsa::public_key_to_der` (SubjectPublicKeyInfo) and `Rsa::private_key_to_der`
/// (PKCS#1). The key is drawn at random: what is promised is its size, that
/// the two halves belong together, and that the private key is consistent.
#[verifier::external_body]
pub(crate) fn generate_rsa_der(bits: u32) -> (r: Result<(Vec<u8>, Vec<u8>), openssl::error::ErrorStack>)
    requires
        bits >= 2048,
    ensures
        r matches Ok((public_der, private_der)) ==> {
            &&& rsa_modulus_bits_of(public_der@) == bits as nat
            &&& rsa_public_der_of(private_der@) == Some(public_der@)
            &&& rsa_private_key_consistent(private_der@)
        },
{
    let key = openssl::rsa::Rsa::generate(bits)?;
    Ok((key.public_key_to_der()?, key.private_key_to_der()?))
}

/// Relies on `openssl::rsa::Rsa::public_key_to_pem`, applied to the key that
/// `Rsa::public_key_from_der` reads from `der`: the PEM text of the same
/// SubjectPublicKeyInfo. Whether the bytes decode, and the text, depend on the
/// bytes alone.
#[verifier::external_body]
pub(crate) fn public_key_der_to_pem(der: &[u8]) -> (r: Result<String, openssl::error::ErrorStack>)
    ensures
        match r {
            Ok(pem) => public_pem_of(der@) == Some(pem@),
            Err(_) => public_pem_of(der@) is None,
        },
{
    let key = openssl::rsa::Rsa::public_key_from_der(der)?;
    let pem = key.public_key_to_pem()?;
    Ok(String::from_utf8_lossy(&pem).into_owned())
}

/// Relies on `openssl::rsa::Rsa::check_key`, applied to the key that
/// `Rsa::private_key_from_der` reads from `private_der`: bytes that do not
/// decode, and a check that fails or reports an error, give `false`.
#[verifier::external_body]
pub(crate) fn check_rsa_private_der(private_der: &[u8]) -> (r: bool)
    ensures
        r == rsa_private_key_consistent(private_der@),
{
    match openssl::rsa::Rsa::private_key_from_der(private_der) {
        Ok(key) => match key.check_key() {
            Ok(consistent) => consistent,
            Err(_) => false,
        },
        Err(_) => false,
    }
}

/// Relies on `openssl::sign::Signer` with `MessageDigest::sha256()` over the RSA
/// key that `Rsa::private_key_from_der` reads from `private_der`: a consistent
/// RSA key signs with PKCS#1 v1.5 padding, which is deterministic (the blinding
/// factor cancels out).
#[verifier::external_body]
pub(crate) fn sign_rsa_sha256(private_der: &[u8], message: &[u8]) -> (r: Result<Vec<u8>, openssl::error::ErrorStack>)
    requires
        rsa_private_key_consistent(private_der@),
    ensures
        match r {
            Ok(sig) => rsa_sha256_signature_of(private_der@, message@) == Some(sig@),
            Err(_) => rsa_sha256_signature_of(private_der@, message@) is None,
        },
{
    let rsa = openssl::rsa::Rsa::private_key_from_der(private_der)?;
    let key = openssl::pkey::PKey::from_rsa(rsa)?;
    let mut signer = openssl::sign::Signer::new(openssl::hash::MessageDigest::sha256(), &key)?;
    signer.sign_oneshot_to_vec(message)
}

} // verus!
