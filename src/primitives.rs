//! The calls into the cryptographic crates, each behind a small trusted
//! wrapper whose contract states what the crate documents.
use vstd::prelude::*;
use crate::encoding::reduced_scalar;
use aes::Aes256;
use block_modes::block_padding::Pkcs7;
use block_modes::{BlockMode, Cbc};
use curve25519_dalek::edwards::CompressedEdwardsY;
use curve25519_dalek::montgomery::MontgomeryPoint;
use curve25519_dalek::scalar::Scalar;
use rand::rngs::OsRng;
use rand::RngCore;
use sha2::Digest;

verus! {

/// Compressed Edwards encoding of `[s mod l]B`, with `B` the Ed25519 basepoint.
pub uninterp spec fn edwards_base_mul(s: Seq<u8>) -> Seq<u8>;

/// Whether `p` is the compressed encoding of a point on the curve.
pub uninterp spec fn edwards_decodes(p: Seq<u8>) -> bool;

/// Montgomery u-coordinate of the Edwards point whose compressed encoding is `p`.
pub uninterp spec fn montgomery_of(p: Seq<u8>) -> Seq<u8>;

/// Montgomery u-coordinate of `[s mod l]P`, where `u` is the u-coordinate of `P`.
pub uninterp spec fn montgomery_mul(u: Seq<u8>, s: Seq<u8>) -> Seq<u8>;

/// SHA-256 digest of `b`.
pub uninterp spec fn sha256_of(b: Seq<u8>) -> Seq<u8>;

/// 32-byte PBKDF2-HMAC-SHA256 output for a password, salt and iteration count.
pub uninterp spec fn pbkdf2_sha256_of(password: Seq<u8>, salt: Seq<u8>, rounds: u32) -> Seq<u8>;

/// AES-256-CBC encryption of `pt` with PKCS#7 padding.
pub uninterp spec fn aes256_cbc_encrypt_of(key: Seq<u8>, iv: Seq<u8>, pt: Seq<u8>) -> Seq<u8>;

/// AES-256-CBC decryption of `ct` followed by PKCS#7 unpadding; `None` when that fails.
pub uninterp spec fn aes256_cbc_decrypt_of(key: Seq<u8>, iv: Seq<u8>, ct: Seq<u8>) -> Option<
    Seq<u8>,
>;

/// Length of the padded CBC ciphertext of an `n`-byte plaintext: the smallest
/// multiple of the 16-byte block size that is at least `n + 1`.
pub open spec fn padded_len(n: nat) -> nat {
    (n / 16 + 1) * 16
}

/// Relies on `rand::rngs::OsRng::try_fill_bytes`: fills `n` bytes from the
/// operating system's random source, or reports that it could not.
#[verifier::external_body]
pub(crate) fn random_bytes(n: usize) -> (r: Option<Vec<u8>>)
    ensures
        r matches Some(v) ==> v@.len() == n,
{
    let mut buf = vec![0u8; n];
    match OsRng.try_fill_bytes(&mut buf) {
        Ok(()) => Some(buf),
        Err(_) => None,
    }
}

/// Relies on `Scalar::from_bytes_mod_order` (and `Scalar::to_bytes`): reduces a
/// 256-bit little-endian integer modulo the group order.
#[verifier::external_body]
pub(crate) fn reduce_scalar(b: [u8; 32]) -> (r: [u8; 32])
    ensures
        r@ == reduced_scalar(b@),
{
    Scalar::from_bytes_mod_order(b).to_bytes()
}

/// Relies on `Scalar * EdwardsPoint` with the Ed25519 basepoint, then
/// `EdwardsPoint::compress`: the compressed public point of a scalar. A
/// compressed point decodes again.
#[verifier::external_body]
pub(crate) fn base_point_mul(s: [u8; 32]) -> (r: [u8; 32])
    ensures
        r@ == edwards_base_mul(s@),
        edwards_decodes(r@),
{
    let scalar = Scalar::from_bytes_mod_order(s);
    (scalar * curve25519_dalek::constants::ED25519_BASEPOINT_POINT).compress().to_bytes()
}

/// Relies on `CompressedEdwardsY::decompress`: whether the bytes are the
/// y-coordinate encoding of a curve point.
#[verifier::external_body]
pub(crate) fn point_decodes(p: [u8; 32]) -> (r: bool)
    ensures
        r == edwards_decodes(p@),
{
    CompressedEdwardsY(p).decompress().is_some()
}

/// Relies on `EdwardsPoint::to_montgomery`: the birational map to the
/// Montgomery form, applied to a point that decodes.
#[verifier::external_body]
pub(crate) fn to_montgomery(p: [u8; 32]) -> (r: [u8; 32])
    requires
        edwards_decodes(p@),
    ensures
        r@ == montgomery_of(p@),
{
    CompressedEdwardsY(p).decompress().unwrap().to_montgomery().to_bytes()
}

/// Relies on `&MontgomeryPoint * &Scalar`: x-only scalar multiplication on the
/// Montgomery curve.
#[verifier::external_body]
pub(crate) fn montgomery_scalar_mul(u: [u8; 32], s: [u8; 32]) -> (r: [u8; 32])
    ensures
        r@ == montgomery_mul(u@, s@),
{
    (&MontgomeryPoint(u) * &Scalar::from_bytes_mod_order(s)).to_bytes()
}

/// Relies on `sha2::Sha256::digest`: the 32-byte digest of the input.
#[verifier::external_body]
pub(crate) fn sha256(b: &[u8]) -> (r: [u8; 32])
    ensures
        r@ == sha256_of(b@),
{
    sha2::Sha256::digest(b).into()
}

/// Relies on `pbkdf2::pbkdf2_hmac::<Sha256>` (PBKDF2 over `hmac::Hmac<Sha256>`):
/// a 32-byte key stretched from a password and salt.
#[verifier::external_body]
pub(crate) fn pbkdf2_sha256(password: &[u8], salt: &[u8], rounds: u32) -> (r: [u8; 32])
    ensures
        r@ == pbkdf2_sha256_of(password@, salt@, rounds),
{
    let mut key = [0u8; 32];
    pbkdf2::pbkdf2_hmac::<sha2::Sha256>(password, salt, rounds, &mut key);
    key
}

/// Relies on `Cbc::<Aes256, Pkcs7>::encrypt_vec`: the plaintext is padded to the
/// next whole block (a full block when it is already aligned) and encrypted;
/// `decrypt_vec` with the same key and IV undoes it.
#[verifier::external_body]
pub(crate) fn aes256_cbc_encrypt(key: &[u8; 32], iv: &[u8; 16], pt: &[u8]) -> (r: Vec<u8>)
    ensures
        r@ == aes256_cbc_encrypt_of(key@, iv@, pt@),
        r@.len() == padded_len(pt@.len()),
        aes256_cbc_decrypt_of(key@, iv@, r@) == Some(pt@),
{
    Cbc::<Aes256, Pkcs7>::new_from_slices(key, iv).unwrap().encrypt_vec(pt)
}

/// Relies on `Cbc::<Aes256, Pkcs7>::decrypt_vec`: decrypts and strips the
/// padding, or fails when the length or the padding is not valid.
#[verifier::external_body]
pub(crate) fn aes256_cbc_decrypt(key: &[u8; 32], iv: &[u8; 16], ct: &[u8]) -> (r: Option<Vec<u8>>)
    ensures
        r is Some <==> aes256_cbc_decrypt_of(key@, iv@, ct@) is Some,
        r matches Some(v) ==> aes256_cbc_decrypt_of(key@, iv@, ct@) == Some(v@),
{
    match Cbc::<Aes256, Pkcs7>::new_from_slices(key, iv).unwrap().decrypt_vec(ct) {
        Ok(v) => Some(v),
        Err(_) => None,
    }
}

} // verus!
