//! Messages sealed to a recipient's public key with a fresh ephemeral
//! Diffie-Hellman exchange, and opened with the recipient's scalar.
use vstd::prelude::*;
use crate::encoding::{is_canonical_scalar, lemma_reduced_is_canonical, reduced_scalar};
use crate::error::CryptoError;
use crate::primitives::{
    aes256_cbc_decrypt, aes256_cbc_decrypt_of, aes256_cbc_encrypt, aes256_cbc_encrypt_of,
    base_point_mul, edwards_base_mul, edwards_decodes, montgomery_mul, montgomery_of,
    montgomery_scalar_mul, padded_len, point_decodes, random_bytes, reduce_scalar, sha256,
    sha256_of, to_montgomery,
};

verus! {

/// The fixed all-zero IV of message encryption. It is safe only because each
/// message key comes from a fresh ephemeral scalar.
pub open spec fn zero_iv() -> Seq<u8> {
    Seq::new(16, |_i: int| 0u8)
}

/// The Diffie-Hellman secret of a scalar and a compressed Edwards public point:
/// the Montgomery u-coordinate of `private * public`.
pub open spec fn dh_secret(private: Seq<u8>, public: Seq<u8>) -> Seq<u8> {
    montgomery_mul(montgomery_of(public), private)
}

/// The Montgomery-form public half of the ephemeral scalar `e`.
pub open spec fn ephemeral_public_of(e: Seq<u8>) -> Seq<u8> {
    montgomery_of(edwards_base_mul(e))
}

/// A message encrypted under the SHA-256 digest of a shared secret.
pub open spec fn sealed_message(shared: Seq<u8>, message: Seq<u8>) -> Seq<u8> {
    aes256_cbc_encrypt_of(sha256_of(shared), zero_iv(), message)
}

/// What decrypting a message under the digest of a shared secret yields.
pub open spec fn opened_message(shared: Seq<u8>, ciphertext: Seq<u8>) -> Result<
    Seq<u8>,
    CryptoError,
> {
    match aes256_cbc_decrypt_of(sha256_of(shared), zero_iv(), ciphertext) {
        Some(m) => Ok(m),
        None => Err(CryptoError::DecryptionError),
    }
}

/// The envelope that sealing with ephemeral scalar `e` produces: ciphertext,
/// then the ephemeral public point.
pub open spec fn is_envelope_for(
    recipient_public: Seq<u8>,
    message: Seq<u8>,
    e: Seq<u8>,
    ciphertext: Seq<u8>,
    ephemeral_public: Seq<u8>,
) -> bool {
    &&& ephemeral_public == ephemeral_public_of(e)
    &&& ciphertext == sealed_message(dh_secret(e, recipient_public), message)
    &&& ciphertext.len() == padded_len(message.len())
    &&& opened_message(dh_secret(e, recipient_public), ciphertext) == Ok::<
        Seq<u8>,
        CryptoError,
    >(message)
}

fn zero_iv_array() -> (r: [u8; 16])
    ensures
        r@ == zero_iv(),
{
    let r = [0u8; 16];
    assert(r@ =~= zero_iv());
    r
}

/// The shared secret of `private` and the compressed Edwards point `public`,
/// computed on the Montgomery form. Fails with `FormatError` when `public`
/// does not decode.
pub fn shared_secret(private: &[u8; 32], public: &[u8; 32]) -> (r: Result<[u8; 32], CryptoError>)
    ensures
        edwards_decodes(public@) ==> (r matches Ok(s) && s@ == dh_secret(private@, public@)),
        !edwards_decodes(public@) ==> r == Err::<[u8; 32], CryptoError>(CryptoError::FormatError),
{
    if !point_decodes(*public) {
        return Err(CryptoError::FormatError);
    }
    let u = to_montgomery(*public);
    Ok(montgomery_scalar_mul(u, *private))
}

/// Encrypts `message` under the digest of `shared` with the zero IV.
pub fn seal_with_secret(shared: &[u8; 32], message: &[u8]) -> (r: Vec<u8>)
    ensures
        r@ == sealed_message(shared@, message@),
        r@.len() == padded_len(message@.len()),
        opened_message(shared@, r@) == Ok::<Seq<u8>, CryptoError>(message@),
{
    let key = sha256(shared);
    let iv = zero_iv_array();
    aes256_cbc_encrypt(&key, &iv, message)
}

/// Decrypts `ciphertext` under the digest of `shared` with the zero IV;
/// `DecryptionError` when the length or the padding is not valid.
pub fn open_with_secret(shared: &[u8; 32], ciphertext: &[u8]) -> (r: Result<Vec<u8>, CryptoError>)
    ensures
        r matches Ok(m) ==> opened_message(shared@, ciphertext@) == Ok::<Seq<u8>, CryptoError>(
            m@,
        ),
        r matches Err(e) ==> opened_message(shared@, ciphertext@) == Err::<Seq<u8>, CryptoError>(
            e,
        ),
{
    let key = sha256(shared);
    let iv = zero_iv_array();
    match aes256_cbc_decrypt(&key, &iv, ciphertext) {
        Some(m) => Ok(m),
        None => Err(CryptoError::DecryptionError),
    }
}

/// Seals `message` to `recipient_public` with the ephemeral scalar that `seed`
/// reduces to; returns the ciphertext and the Montgomery-form ephemeral public
/// point. Fails with `FormatError` when the recipient's point does not decode.
pub fn encrypt_message_with(recipient_public: &[u8; 32], message: &[u8], seed: [u8; 32]) -> (r:
    Result<(Vec<u8>, [u8; 32]), CryptoError>)
    ensures
        edwards_decodes(recipient_public@) ==> (r matches Ok((ct, eph)) && is_envelope_for(
            recipient_public@,
            message@,
            reduced_scalar(seed@),
            ct@,
            eph@,
        )),
        !edwards_decodes(recipient_public@) ==> (r matches Err(e) && e == CryptoError::FormatError),
{
    let ephemeral_private = reduce_scalar(seed);
    let ephemeral_edwards = base_point_mul(ephemeral_private);
    let ephemeral_public = to_montgomery(ephemeral_edwards);
    let shared = match shared_secret(&ephemeral_private, recipient_public) {
        Ok(s) => s,
        Err(e) => {
            return Err(e);
        },
    };
    let encrypted = seal_with_secret(&shared, message);
    Ok((encrypted, ephemeral_public))
}

/// Seals `message` to `recipient_public` with a fresh random ephemeral scalar.
/// Fails with `FormatError` when the recipient's point does not decode, and
/// with `EntropyFailure` when no random bytes can be had.
pub fn encrypt_message_for(recipient_public: &[u8; 32], message: &[u8]) -> (r: Result<
    (Vec<u8>, [u8; 32]),
    CryptoError,
>)
    ensures
        r matches Ok((ct, eph)) ==> exists|e: Seq<u8>|
            is_canonical_scalar(e) && #[trigger] is_envelope_for(
                recipient_public@,
                message@,
                e,
                ct@,
                eph@,
            ),
        !edwards_decodes(recipient_public@) ==> (r matches Err(e) && e == CryptoError::FormatError),
        r matches Err(e) ==> (e == CryptoError::FormatError && !edwards_decodes(
            recipient_public@,
        )) || e == CryptoError::EntropyFailure,
{
    if !point_decodes(*recipient_public) {
        return Err(CryptoError::FormatError);
    }
    let bytes = match random_bytes(32) {
        Some(v) => v,
        None => {
            return Err(CryptoError::EntropyFailure);
        },
    };
    let mut seed = [0u8; 32];
    let mut i: usize = 0;
    while i < 32
        invariant
            0 <= i <= 32,
            bytes@.len() == 32,
            seed@.len() == 32,
            forall|j: int| 0 <= j < i ==> seed@[j] == bytes@[j],
        decreases 32 - i,
    {
        seed[i] = bytes[i];
        i = i + 1;
    }
    let r = encrypt_message_with(recipient_public, message, seed);
    proof {
        lemma_reduced_is_canonical(seed@);
    }
    r
}

/// Opens a message sealed to the holder of `private_key`, given the sender's
/// Montgomery-form ephemeral public point. Fails with `DecryptionError` when
/// the ciphertext's length or padding is not valid.
pub fn decrypt_message_from(
    private_key: &[u8; 32],
    ciphertext: &[u8],
    ephemeral_public: [u8; 32],
) -> (r: Result<Vec<u8>, CryptoError>)
    ensures
        r matches Ok(m) ==> opened_message(
            montgomery_mul(ephemeral_public@, private_key@),
            ciphertext@,
        ) == Ok::<Seq<u8>, CryptoError>(m@),
        r matches Err(e) ==> opened_message(
            montgomery_mul(ephemeral_public@, private_key@),
            ciphertext@,
        ) == Err::<Seq<u8>, CryptoError>(e),
{
    let shared = montgomery_scalar_mul(ephemeral_public, *private_key);
    open_with_secret(&shared, ciphertext)
}

} // verus!
