//! AES-256-GCM with a 96-bit nonce and no associated data.
//!
//! The cipher itself is the `aes-gcm` crate's. This module checks what the
//! cipher takes for granted (the lengths of key, nonce and message) and says
//! what encryption and decryption are to each other.
//!
//! A nonce must never be used twice with one key: whoever calls [`encrypt`]
//! answers for that, nothing here checks it.

use aes_gcm::aead::{Aead, NewAead};
use aes_gcm::{Aes256Gcm, Key, Nonce};
use vstd::prelude::*;

verus! {

/// Bytes in a key.
pub const KEY_LEN: usize = 32;

/// Bytes in a nonce.
pub const NONCE_LEN: usize = 12;

/// Bytes in the authentication tag that ends every ciphertext.
pub const TAG_LEN: usize = 16;

/// A plaintext must be shorter than this: the cipher's 32-bit block counter
/// starts at 1 for the message and may not wrap.
pub const PLAINTEXT_LIMIT: u64 = 0xF_FFFF_FFF0;

/// A ciphertext, tag included, must be shorter than this.
pub const CIPHERTEXT_LIMIT: u64 = 0x10_0000_0000;

/// The ciphertext, tag included, that AES-256-GCM gives for the plaintext
/// `data` under a 32-byte key and a 12-byte nonce, with no associated data.
pub uninterp spec fn aes256_gcm_sealed(data: Seq<u8>, key: Seq<u8>, nonce: Seq<u8>) -> Seq<u8>;

/// The plaintext that AES-256-GCM recovers from the ciphertext `data` under a
/// 32-byte key and a 12-byte nonce, or `None` where the tag does not verify.
pub uninterp spec fn aes256_gcm_opened(data: Seq<u8>, key: Seq<u8>, nonce: Seq<u8>) -> Option<Seq<u8>>;

/// The error of `aes-gcm`, which says nothing of its cause.
#[verifier::external_type_specification]
#[verifier::external_body]
pub struct ExCipherError(aes_gcm::Error);

/// `ciphertext` is what encrypting `plaintext` under `key` and `nonce` gives:
/// the cipher's output, one tag longer than the input, and such that
/// decryption under the same key and nonce gives `plaintext` back.
pub open spec fn encrypts_to(
    plaintext: Seq<u8>,
    key: Seq<u8>,
    nonce: Seq<u8>,
    ciphertext: Seq<u8>,
) -> bool {
    &&& ciphertext == aes256_gcm_sealed(plaintext, key, nonce)
    &&& ciphertext.len() == plaintext.len() + TAG_LEN
    &&& aes256_gcm_opened(ciphertext, key, nonce) == Some(plaintext)
}

/// Whether [`encrypt`] takes these lengths: a key and a nonce of the right
/// size, and a plaintext below [`PLAINTEXT_LIMIT`] that the machine can still
/// hold once the tag is added.
pub open spec fn encrypt_accepts(plaintext_len: nat, key_len: nat, nonce_len: nat) -> bool {
    &&& key_len == KEY_LEN
    &&& nonce_len == NONCE_LEN
    &&& plaintext_len < PLAINTEXT_LIMIT
    &&& plaintext_len + TAG_LEN <= isize::MAX
}

/// Whether [`decrypt`] takes these lengths: a key and a nonce of the right
/// size, and a ciphertext below [`CIPHERTEXT_LIMIT`].
pub open spec fn decrypt_accepts(ciphertext_len: nat, key_len: nat, nonce_len: nat) -> bool {
    key_len == KEY_LEN && nonce_len == NONCE_LEN && ciphertext_len < CIPHERTEXT_LIMIT
}

/// What [`decrypt`] returns, with `None` for its error.
pub open spec fn decrypted(ciphertext: Seq<u8>, key: Seq<u8>, nonce: Seq<u8>) -> Option<Seq<u8>> {
    if decrypt_accepts(ciphertext.len(), key.len(), nonce.len()) {
        aes256_gcm_opened(ciphertext, key, nonce)
    } else {
        None
    }
}

/// Calls `Aes256Gcm::encrypt` of `aes-gcm`, with the key and nonce taken from
/// slices as `GenericArray::from_slice` does.
///
/// Trusted: for a 32-byte key, a 12-byte nonce and a plaintext below
/// [`PLAINTEXT_LIMIT`] that can be allocated with its tag, the call succeeds;
/// the result is the cipher's output for these three, it is the plaintext's
/// length plus one tag long, and `Aes256Gcm::decrypt` under the same key and
/// nonce opens it to the plaintext. Other lengths are left out: on them the
/// outside code panics or fails.
#[allow(deprecated)]
#[verifier::external_body]
fn seal(data: &[u8], key: &[u8], iv: &[u8]) -> (r: Result<Vec<u8>, aes_gcm::Error>)
    requires
        encrypt_accepts(data@.len(), key@.len(), iv@.len()),
    ensures
        r is Ok,
        r matches Ok(ciphertext) ==> ciphertext@ == aes256_gcm_sealed(data@, key@, iv@),
        r matches Ok(ciphertext) ==> ciphertext@.len() == data@.len() + TAG_LEN,
        r matches Ok(ciphertext) ==> aes256_gcm_opened(ciphertext@, key@, iv@) == Some(data@),
{
    let cipher = Aes256Gcm::new(Key::from_slice(key));
    cipher.encrypt(Nonce::from_slice(iv), data)
}

/// Calls `Aes256Gcm::decrypt` of `aes-gcm`, with the key and nonce taken from
/// slices as `GenericArray::from_slice` does.
///
/// Trusted: for a 32-byte key, a 12-byte nonce and a ciphertext below
/// [`CIPHERTEXT_LIMIT`] the call returns the plaintext that the cipher recovers,
/// or its error where the tag does not verify; an input too short to hold a tag
/// is an error; a plaintext is one tag shorter than its ciphertext, and its
/// own encryption under the same key and nonce is that ciphertext, since the
/// tag that is compared is the one that encryption computes. Other lengths are
/// left out: on them the outside code panics or fails.
#[allow(deprecated)]
#[verifier::external_body]
fn open(encrypted_data: &[u8], key: &[u8], iv: &[u8]) -> (r: Result<Vec<u8>, aes_gcm::Error>)
    requires
        decrypt_accepts(encrypted_data@.len(), key@.len(), iv@.len()),
    ensures
        match r {
            Ok(plaintext) => aes256_gcm_opened(encrypted_data@, key@, iv@) == Some(plaintext@)
                && plaintext@.len() + TAG_LEN == encrypted_data@.len()
                && encrypted_data@ == aes256_gcm_sealed(plaintext@, key@, iv@),
            Err(_) => aes256_gcm_opened(encrypted_data@, key@, iv@) is None,
        },
        encrypted_data@.len() < TAG_LEN ==> r is Err,
{
    let cipher = Aes256Gcm::new(Key::from_slice(key));
    cipher.decrypt(Nonce::from_slice(iv), encrypted_data)
}

/// Encrypts `data` under `key` and `iv`; the result ends in the tag.
///
/// Fails, and only then, where the key is not 32 bytes, the nonce is not 12
/// bytes, or the plaintext is longer than the cipher or the machine can take
/// (see [`encrypt_accepts`]).
pub fn encrypt(data: &[u8], key: &[u8], iv: &[u8]) -> (r: Result<Vec<u8>, String>)
    ensures
        r is Ok <==> encrypt_accepts(data@.len(), key@.len(), iv@.len()),
        r matches Ok(ciphertext) ==> encrypts_to(data@, key@, iv@, ciphertext@),
        r matches Err(message) ==> message@ == "Encrypt data failed: Error"@,
{
    if key.len() != KEY_LEN || iv.len() != NONCE_LEN || data.len() as u64 >= PLAINTEXT_LIMIT
        || data.len() > isize::MAX as usize - TAG_LEN {
        return Err("Encrypt data failed: Error".to_owned());
    }
    match seal(data, key, iv) {
        Ok(ciphertext) => Ok(ciphertext),
        Err(_) => Err("Encrypt data failed: Error".to_owned()),
    }
}

/// Decrypts `encrypted_data`, which ends in its tag, under `key` and `iv`.
///
/// Fails, and only then, where the key is not 32 bytes, the nonce is not 12
/// bytes, the input reaches [`CIPHERTEXT_LIMIT`], or the tag does not verify.
/// What it returns is a whole plaintext or none of it, and the input is that
/// plaintext's encryption: nothing else opens to it.
pub fn decrypt(encrypted_data: &[u8], key: &[u8], iv: &[u8]) -> (r: Result<Vec<u8>, String>)
    ensures
        match r {
            Ok(plaintext) => decrypted(encrypted_data@, key@, iv@) == Some(plaintext@)
                && encrypts_to(plaintext@, key@, iv@, encrypted_data@),
            Err(message) => decrypted(encrypted_data@, key@, iv@) is None
                && message@ == "Decrypt data failed: Error"@,
        },
        encrypted_data@.len() < TAG_LEN ==> r is Err,
{
    if key.len() != KEY_LEN || iv.len() != NONCE_LEN || encrypted_data.len() as u64
        >= CIPHERTEXT_LIMIT {
        return Err("Decrypt data failed: Error".to_owned());
    }
    match open(encrypted_data, key, iv) {
        Ok(plaintext) => Ok(plaintext),
        Err(_) => Err("Decrypt data failed: Error".to_owned()),
    }
}

/// Decryption undoes encryption: what [`encrypt`] gives for a plaintext,
/// [`decrypt`] under the same key and nonce opens to that plaintext.
pub proof fn lemma_decrypt_inverts_encrypt(
    plaintext: Seq<u8>,
    key: Seq<u8>,
    nonce: Seq<u8>,
    ciphertext: Seq<u8>,
)
    requires
        encrypt_accepts(plaintext.len(), key.len(), nonce.len()),
        encrypts_to(plaintext, key, nonce, ciphertext),
    ensures
        decrypted(ciphertext, key, nonce) == Some(plaintext),
{
}

/// Under one key and nonce a plaintext has one ciphertext, and a ciphertext
/// stands for one plaintext: what [`decrypt`] makes of another input is never
/// the plaintext of this one.
pub proof fn lemma_encryption_is_one_to_one(
    first: Seq<u8>,
    second: Seq<u8>,
    key: Seq<u8>,
    nonce: Seq<u8>,
    first_ciphertext: Seq<u8>,
    second_ciphertext: Seq<u8>,
)
    requires
        encrypts_to(first, key, nonce, first_ciphertext),
        encrypts_to(second, key, nonce, second_ciphertext),
    ensures
        first == second <==> first_ciphertext == second_ciphertext,
{
}

} // verus!
