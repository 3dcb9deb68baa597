//! The signing key of the Docker registry, by p256, and its fingerprint, by
//! sha2 and base32.

use crate::outside::{told_bytes, told_text};
use p256::ecdsa::SigningKey;
use p256::pkcs8::{DecodePrivateKey, EncodePrivateKey, LineEnding};
use sec1::DecodeEcPrivateKey;
use sha2::Digest;
use spki::EncodePublicKey;
use vstd::arithmetic::power2::pow2;
use vstd::prelude::*;

verus! {

/// The secret number, as bytes, that `SigningKey::from_sec1_pem` reads in a
/// text, or the debug text of its error.
pub uninterp spec fn sec1_secret(pem: Seq<char>) -> Result<Seq<u8>, Seq<char>>;

/// Calls `SigningKey::from_sec1_pem` and gives the key as bytes.
#[verifier::external_body]
pub(crate) fn read_sec1_pem(pem: &str) -> (r: Result<Vec<u8>, String>)
    ensures
        told_bytes(r) == sec1_secret(pem@),
{
    SigningKey::from_sec1_pem(pem)
        .map(|key| key.to_bytes().to_vec())
        .map_err(|e| format!("{:?}", e))
}

/// The secret number, as bytes, that `SigningKey::from_pkcs8_pem` reads in a
/// text, or the debug text of its error.
pub uninterp spec fn pkcs8_secret(pem: Seq<char>) -> Result<Seq<u8>, Seq<char>>;

/// Calls `SigningKey::from_pkcs8_pem` and gives the key as bytes.
#[verifier::external_body]
pub(crate) fn read_pkcs8_pem(pem: &str) -> (r: Result<Vec<u8>, String>)
    ensures
        told_bytes(r) == pkcs8_secret(pem@),
{
    SigningKey::from_pkcs8_pem(pem)
        .map(|key| key.to_bytes().to_vec())
        .map_err(|e| format!("{:?}", e))
}

/// The public half of a key, as `to_public_key_der` encodes it, or the debug
/// text of the error.
pub uninterp spec fn public_der(secret: Seq<u8>) -> Result<Seq<u8>, Seq<char>>;

/// Calls `to_public_key_der` on the verifying key that belongs to a secret.
#[verifier::external_body]
pub(crate) fn write_public_der(secret: &Vec<u8>) -> (r: Result<Vec<u8>, String>)
    ensures
        told_bytes(r) == public_der(secret@),
{
    match SigningKey::from_slice(secret) {
        Ok(key) => key
            .verifying_key()
            .to_public_key_der()
            .map(|der| der.as_bytes().to_vec())
            .map_err(|e| format!("{:?}", e)),
        Err(e) => Err(format!("{:?}", e)),
    }
}

/// A key as `to_pkcs8_pem` writes it, or the debug text of the error.
pub uninterp spec fn pkcs8_pem(secret: Seq<u8>) -> Result<Seq<char>, Seq<char>>;

/// Calls `to_pkcs8_pem` on the signing key that belongs to a secret.
#[verifier::external_body]
pub(crate) fn write_pkcs8_pem(secret: &Vec<u8>) -> (r: Result<String, String>)
    ensures
        told_text(r) == pkcs8_pem(secret@),
{
    match SigningKey::from_slice(secret) {
        Ok(key) => key
            .to_pkcs8_pem(LineEnding::LF)
            .map(|pem| pem.to_string())
            .map_err(|e| format!("{:?}", e)),
        Err(e) => Err(format!("{:?}", e)),
    }
}

/// The SHA-256 digest of some bytes.
pub uninterp spec fn sha256(data: Seq<u8>) -> Seq<u8>;

/// Calls `Sha256::digest`; a digest has 32 bytes.
#[verifier::external_body]
pub(crate) fn digest(data: &Vec<u8>) -> (r: Vec<u8>)
    ensures
        r@ == sha256(data@),
        r@.len() == 32,
{
    sha2::Sha256::digest(data).to_vec()
}

/// The bit of some bytes at a place, the highest bit of the first byte first;
/// zero behind the last byte.
pub open spec fn bit(data: Seq<u8>, place: int) -> int {
    if place / 8 < data.len() {
        (data[place / 8] as int / pow2((7 - place % 8) as nat) as int) % 2
    } else {
        0
    }
}

/// The character that stands for five bits in base 32.
pub open spec fn base32_character(value: int) -> char {
    if value < 26 {
        ('A' as int + value) as char
    } else {
        ('2' as int + (value - 26)) as char
    }
}

/// Bytes in base 32, without padding: one character for every five bits.
pub open spec fn base32_text(data: Seq<u8>) -> Seq<char> {
    Seq::new(
        (8 * data.len() + 4) / 5,
        |i: int|
            base32_character(
                16 * bit(data, 5 * i) + 8 * bit(data, 5 * i + 1) + 4 * bit(data, 5 * i + 2) + 2
                    * bit(data, 5 * i + 3) + bit(data, 5 * i + 4),
            ),
    )
}

/// Calls `base32::encode` with the alphabet of RFC 4648 and no padding.
#[verifier::external_body]
pub(crate) fn base32_encode(data: &Vec<u8>) -> (r: String)
    ensures
        r@ == base32_text(data@),
{
    base32::encode(base32::Alphabet::RFC4648 { padding: false }, data)
}

} // verus!
