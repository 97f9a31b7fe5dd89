//! Keypairs and their passphrase-protected at-rest form.
use vstd::prelude::*;
use crate::encoding::{
    is_canonical_scalar, lemma_reduce_canonical, lemma_reduced_is_canonical, reduced_scalar,
};
use crate::error::CryptoError;
use crate::primitives::{
    aes256_cbc_decrypt, aes256_cbc_decrypt_of, aes256_cbc_encrypt, aes256_cbc_encrypt_of,
    base_point_mul, edwards_base_mul, edwards_decodes, padded_len, pbkdf2_sha256, pbkdf2_sha256_of,
    point_decodes, random_bytes, reduce_scalar,
};

verus! {

/// Iteration count of the passphrase key derivation.
pub const KDF_ROUNDS: u32 = 10000;

/// Byte length of the salt and of the IV that head an encrypted keyring.
pub const SALT_LEN: usize = 16;

/// The mathematical content of a keypair: the compressed public point and the
/// scalar bytes.
pub struct KeyPairModel {
    pub public: Seq<u8>,
    pub private: Seq<u8>,
}

impl KeyPairModel {
    /// The keypair invariant: a canonical scalar whose public point is the
    /// scalar times the basepoint.
    pub open spec fn wf(self) -> bool {
        &&& is_canonical_scalar(self.private)
        &&& self.public == edwards_base_mul(self.private)
        &&& edwards_decodes(self.public)
    }

    /// The 64 bytes that the keyring cipher protects: public point, then scalar.
    pub open spec fn plaintext(self) -> Seq<u8> {
        self.public + self.private
    }
}

/// A keypair: `public` is the 32-byte compressed Edwards point and `private`
/// the 32-byte little-endian scalar.
#[derive(Debug, Clone, Copy)]
pub struct Keyring {
    pub public: [u8; 32],
    pub private: [u8; 32],
}

impl View for Keyring {
    type V = KeyPairModel;

    open spec fn view(&self) -> KeyPairModel {
        KeyPairModel { public: self.public@, private: self.private@ }
    }
}

impl Keyring {
    /// Draws 32 random bytes, reduces them to a scalar and computes its public point.
    pub fn generate() -> (r: Result<Keyring, CryptoError>)
        ensures
            r matches Ok(k) ==> k@.wf(),
            r matches Err(e) ==> e == CryptoError::EntropyFailure,
    {
        match random_bytes(32) {
            Some(v) => {
                let seed = to_array32(&v);
                Ok(Keyring::from_seed(seed))
            },
            None => Err(CryptoError::EntropyFailure),
        }
    }

    /// The keypair whose scalar is `seed` reduced modulo the group order.
    pub fn from_seed(seed: [u8; 32]) -> (r: Keyring)
        ensures
            r.private@ == reduced_scalar(seed@),
            r.public@ == edwards_base_mul(r.private@),
            r@.wf(),
    {
        let private = reduce_scalar(seed);
        proof {
            lemma_reduced_is_canonical(seed@);
        }
        let public = base_point_mul(private);
        Keyring { public, private }
    }

    /// Puts a keypair together from its two halves, as they are.
    pub fn construct(pk: [u8; 32], sk: [u8; 32]) -> (r: Keyring)
        ensures
            r.public == pk,
            r.private == sk,
    {
        Keyring { public: pk, private: sk }
    }
}

/// Copies a 32-byte vector into an array.
fn to_array32(v: &Vec<u8>) -> (r: [u8; 32])
    requires
        v@.len() == 32,
    ensures
        r@ == v@,
{
    let mut a = [0u8; 32];
    let mut i: usize = 0;
    while i < 32
        invariant
            0 <= i <= 32,
            v@.len() == 32,
            a@.len() == 32,
            forall|j: int| 0 <= j < i ==> a@[j] == v@[j],
        decreases 32 - i,
    {
        a[i] = v[i];
        i = i + 1;
    }
    assert(a@ =~= v@);
    a
}

/// Copies `len` bytes of `s` from `start` into a 16-byte array.
fn to_array16(s: &[u8], start: usize) -> (r: [u8; 16])
    requires
        start + 16 <= s@.len(),
    ensures
        r@ == s@.subrange(start as int, start + 16),
{
    let mut a = [0u8; 16];
    let n = s.len();
    let mut i: usize = 0;
    while i < 16
        invariant
            0 <= i <= 16,
            n == s@.len(),
            start + 16 <= n,
            a@.len() == 16,
            forall|j: int| 0 <= j < i ==> a@[j] == s@[start + j],
        decreases 16 - i,
    {
        a[i] = s[start + i];
        i = i + 1;
    }
    assert(a@ =~= s@.subrange(start as int, start + 16));
    a
}

/// Appends the bytes of `s` from `start` up to `end` to `out`.
fn extend_from(out: &mut Vec<u8>, s: &[u8], start: usize, end: usize)
    requires
        start <= end <= s@.len(),
    ensures
        final(out)@ == old(out)@ + s@.subrange(start as int, end as int),
{
    let mut i: usize = start;
    while i < end
        invariant
            start <= i <= end <= s@.len(),
            out@ == old(out)@ + s@.subrange(start as int, i as int),
        decreases end - i,
    {
        out.push(s[i]);
        i = i + 1;
        assert(out@ =~= old(out)@ + s@.subrange(start as int, i as int));
    }
}

/// The at-rest form of a keypair: `salt || iv || AES-256-CBC(key, iv, public || private)`,
/// where the key is stretched from the passphrase and the salt.
pub open spec fn sealed_keyring(k: KeyPairModel, pass: Seq<u8>, salt: Seq<u8>, iv: Seq<u8>) -> Seq<
    u8,
> {
    salt + iv + aes256_cbc_encrypt_of(pbkdf2_sha256_of(pass, salt, KDF_ROUNDS), iv, k.plaintext())
}

/// What decrypting an at-rest keyring with a passphrase yields.
pub open spec fn opened_keyring(blob: Seq<u8>, pass: Seq<u8>) -> Result<KeyPairModel, CryptoError> {
    if blob.len() < 32 {
        Err(CryptoError::FormatError)
    } else {
        let key = pbkdf2_sha256_of(pass, blob.subrange(0, 16), KDF_ROUNDS);
        match aes256_cbc_decrypt_of(key, blob.subrange(16, 32), blob.subrange(32, blob.len() as int)) {
            None => Err(CryptoError::DecryptionError),
            Some(pt) => if pt.len() != 64 || !edwards_decodes(pt.subrange(0, 32)) {
                Err(CryptoError::FormatError)
            } else {
                Ok(
                    KeyPairModel {
                        public: pt.subrange(0, 32),
                        private: reduced_scalar(pt.subrange(32, 64)),
                    },
                )
            },
        }
    }
}

/// Protects a keypair under a passphrase.
pub struct KeyringEncryptor {
    pub keyring: Keyring,
}

impl KeyringEncryptor {
    /// Seals the keypair under `pass` with a fresh random salt and IV.
    pub fn encrypt(&self, pass: &[u8]) -> (r: Result<Vec<u8>, CryptoError>)
        ensures
            r matches Ok(b) ==> b@.len() >= 32 && b@ == sealed_keyring(
                self.keyring@,
                pass@,
                b@.subrange(0, 16),
                b@.subrange(16, 32),
            ),
            r matches Ok(b) ==> (self.keyring@.wf() ==> opened_keyring(b@, pass@) == Ok::<KeyPairModel, CryptoError>(
                self.keyring@,
            )),
            r matches Err(e) ==> e == CryptoError::EntropyFailure,
    {
        let salt = match random_bytes(SALT_LEN) {
            Some(v) => v,
            None => {
                return Err(CryptoError::EntropyFailure);
            },
        };
        let iv = match random_bytes(SALT_LEN) {
            Some(v) => v,
            None => {
                return Err(CryptoError::EntropyFailure);
            },
        };
        let salt = to_array16(salt.as_slice(), 0);
        let iv = to_array16(iv.as_slice(), 0);
        let b = self.encrypt_with(pass, salt, iv);
        proof {
            assert(b@.subrange(0, 16) =~= salt@);
            assert(b@.subrange(16, 32) =~= iv@);
        }
        Ok(b)
    }

    /// Seals the keypair under `pass` with the given salt and IV.
    pub fn encrypt_with(&self, pass: &[u8], salt: [u8; 16], iv: [u8; 16]) -> (r: Vec<u8>)
        ensures
            r@ == sealed_keyring(self.keyring@, pass@, salt@, iv@),
            r@.len() == 32 + padded_len(64),
            self.keyring@.wf() ==> opened_keyring(r@, pass@) == Ok::<KeyPairModel, CryptoError>(self.keyring@),
    {
        let key = pbkdf2_sha256(pass, &salt, KDF_ROUNDS);
        let mut combined: Vec<u8> = Vec::new();
        extend_from(&mut combined, &self.keyring.public, 0, 32);
        extend_from(&mut combined, &self.keyring.private, 0, 32);
        assert(combined@ =~= self.keyring@.plaintext());
        let encrypted = aes256_cbc_encrypt(&key, &iv, combined.as_slice());
        let mut output: Vec<u8> = Vec::new();
        extend_from(&mut output, &salt, 0, 16);
        extend_from(&mut output, &iv, 0, 16);
        extend_from(&mut output, encrypted.as_slice(), 0, encrypted.len());
        proof {
            assert(salt@.subrange(0, 16) =~= salt@);
            assert(iv@.subrange(0, 16) =~= iv@);
            assert(encrypted@.subrange(0, encrypted@.len() as int) =~= encrypted@);
            let out = output@;
            assert(out.subrange(0, 16) =~= salt@);
            assert(out.subrange(16, 32) =~= iv@);
            assert(out.subrange(32, out.len() as int) =~= encrypted@);
            if self.keyring@.wf() {
                let pt = self.keyring@.plaintext();
                assert(pt.subrange(0, 32) =~= self.keyring.public@);
                assert(pt.subrange(32, 64) =~= self.keyring.private@);
                lemma_reduce_canonical(self.keyring.private@);
            }
        }
        output
    }

    /// Recovers the keypair from its at-rest form. Fails with `FormatError`
    /// when the blob is shorter than salt and IV, when the plaintext is not
    /// 64 bytes or its public half does not decode, and with
    /// `DecryptionError` when the padding does not check out.
    pub fn decrypt(data: &[u8], pass: &[u8]) -> (r: Result<Keyring, CryptoError>)
        ensures
            r matches Ok(k) ==> opened_keyring(data@, pass@) == Ok::<KeyPairModel, CryptoError>(k@),
            r matches Err(e) ==> opened_keyring(data@, pass@) == Err::<KeyPairModel, _>(e),
    {
        if data.len() < 32 {
            return Err(CryptoError::FormatError);
        }
        let salt = to_array16(data, 0);
        let iv = to_array16(data, 16);
        let key = pbkdf2_sha256(pass, &salt, KDF_ROUNDS);
        let mut encrypted: Vec<u8> = Vec::new();
        extend_from(&mut encrypted, data, 32, data.len());
        assert(encrypted@ =~= data@.subrange(32, data@.len() as int));
        let decrypted = match aes256_cbc_decrypt(&key, &iv, encrypted.as_slice()) {
            Some(v) => v,
            None => {
                return Err(CryptoError::DecryptionError);
            },
        };
        if decrypted.len() != 64 {
            return Err(CryptoError::FormatError);
        }
        let mut public = [0u8; 32];
        let mut private_bytes = [0u8; 32];
        let mut i: usize = 0;
        while i < 32
            invariant
                0 <= i <= 32,
                decrypted@.len() == 64,
                public@.len() == 32,
                private_bytes@.len() == 32,
                forall|j: int| 0 <= j < i ==> public@[j] == decrypted@[j],
                forall|j: int| 0 <= j < i ==> private_bytes@[j] == decrypted@[32 + j],
            decreases 32 - i,
        {
            public[i] = decrypted[i];
            private_bytes[i] = decrypted[32 + i];
            i = i + 1;
        }
        assert(public@ =~= decrypted@.subrange(0, 32));
        assert(private_bytes@ =~= decrypted@.subrange(32, 64));
        if !point_decodes(public) {
            return Err(CryptoError::FormatError);
        }
        let private = reduce_scalar(private_bytes);
        Ok(Keyring::construct(public, private))
    }
}

impl From<Keyring> for KeyringEncryptor {
    fn from(keyring: Keyring) -> (r: KeyringEncryptor) {
        KeyringEncryptor { keyring }
    }
}

impl vstd::std_specs::convert::FromSpecImpl<Keyring> for KeyringEncryptor {
    open spec fn obeys_from_spec() -> bool {
        true
    }

    open spec fn from_spec(keyring: Keyring) -> KeyringEncryptor {
        KeyringEncryptor { keyring }
    }
}

} // verus!
