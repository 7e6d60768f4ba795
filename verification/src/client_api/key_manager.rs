//! The key service: symmetric keys, each in a file named by its identifier.
//!
//! A key is 32 bytes from the operating system's random source; its identifier
//! is a random UUID. Writing and reading the key file is the caller's part.

use crate::client_api::api::{
    CreateKeyResponse, DeleteKeyResponse, GetKeyRequest, GetKeyResponse, STATUS_OK,
};
use crate::crypto::aes256_gcm::KEY_LEN;
use crate::encoding::{base64_fits, base64_text, from_utf8, text_bytes, to_base64};
use crate::resources::directory_key_manager::{
    key_path, key_path_of, lemma_key_path_injective,
};
use crate::resources::file::Store;
use rand::RngCore;
use uuid::Uuid;
use vstd::prelude::*;
use vstd::string::*;
use vstd::utf8::*;

verus! {

/// The status of a key that could not be stored.
pub const STATUS_CREATE_FAILED: &'static str = "Greate key failed";

/// The status of a key that could not be read.
pub const STATUS_NOT_FOUND: &'static str = "key is not exist";

/// The status of a deletion.
pub const STATUS_NOT_IMPLEMENTED: &'static str = "Not implemented";

/// The identifier that stands in for one that is not UTF-8.
pub const NIL_KID: &'static str = "00000000-0000-0000-0000-000000000000";

/// A digit of lower-case hexadecimal.
pub open spec fn is_hex_digit(c: char) -> bool {
    ('0' <= c && c <= '9') || ('a' <= c && c <= 'f')
}

/// A key identifier as [`keyManagerService::new_key`] issues it: a random
/// (version 4, RFC 4122) UUID in its hyphenated lower-case form.
pub open spec fn is_kid(text: Seq<char>) -> bool {
    &&& text.len() == 36
    &&& forall|i: int|
        0 <= i < 36 ==> if i == 8 || i == 13 || i == 18 || i == 23 {
            text[i] == '-'
        } else {
            is_hex_digit(#[trigger] text[i])
        }
    &&& text[14] == '4'
    &&& (text[19] == '8' || text[19] == '9' || text[19] == 'a' || text[19] == 'b')
}

/// The identifier that a request for a key names: the text that the request's
/// bytes encode, or [`NIL_KID`] where they encode none.
pub open spec fn requested_kid(uuid: Seq<u8>) -> Seq<char> {
    if valid_utf8(uuid) {
        decode_utf8(uuid)
    } else {
        NIL_KID@
    }
}

/// Calls `Uuid::new_v4` of `uuid` and formats the result with `to_string`.
///
/// Trusted: the text is a UUID in hyphenated lower-case form whose version
/// digit is 4 and whose variant digit is one of 8, 9, a, b. Which UUID it is
/// depends on the operating system's random source; the call panics where that
/// source fails.
#[verifier::external_body]
fn fresh_uuid() -> (r: String)
    ensures
        is_kid(r@),
{
    Uuid::new_v4().to_string()
}

/// Calls `OsRng.fill_bytes` of `rand` on the whole of `dest`.
///
/// Trusted: the length of `dest` stays. What it holds afterwards depends on the
/// operating system's random source; the call panics where that source fails.
#[verifier::external_body]
fn fill_random(dest: &mut Vec<u8>)
    ensures
        final(dest)@.len() == old(dest)@.len(),
{
    rand::rngs::OsRng.fill_bytes(dest.as_mut_slice())
}

/// A key that was drawn and is yet to be stored: its identifier, the key, and
/// the file that is to hold it.
#[derive(Debug, PartialEq, Eq)]
pub struct NewKey {
    pub kid: String,
    pub key: Vec<u8>,
    pub path: String,
}

/// The key service. It holds nothing: the keys are on disk.
#[allow(non_camel_case_types)]
#[derive(Debug, Default)]
pub struct keyManagerService {}

impl keyManagerService {
    /// Draws a key and an identifier for it. The caller stores `key` at `path`
    /// and hands the outcome to [`Self::create_key`].
    pub fn new_key(&self) -> (r: NewKey)
        ensures
            is_kid(r.kid@),
            r.key@.len() == KEY_LEN,
            r.path@ == key_path_of(r.kid@),
    {
        let kid = fresh_uuid();
        let mut key: Vec<u8> = Vec::new();
        while key.len() < KEY_LEN
            invariant
                key@.len() <= KEY_LEN,
            decreases KEY_LEN - key@.len(),
        {
            key.push(0);
        }
        fill_random(&mut key);
        let path = key_path(kid.as_str());
        NewKey { kid, key, path }
    }

    /// The answer to a request for a new key, given whether the key was stored:
    /// `OK` and the identifier, or [`STATUS_CREATE_FAILED`] and no
    /// identifier.
    pub fn create_key(&self, key: NewKey, stored: bool) -> (r: CreateKeyResponse)
        ensures
            r.status@ == text_bytes(
                if stored {
                    STATUS_OK@
                } else {
                    STATUS_CREATE_FAILED@
                },
            ),
            r.uuid@ == if stored {
                text_bytes(key.kid@)
            } else {
                Seq::<u8>::empty()
            },
    {
        if stored {
            CreateKeyResponse {
                status: STATUS_OK.as_bytes_vec(),
                uuid: key.kid.as_str().as_bytes_vec(),
            }
        } else {
            CreateKeyResponse { status: STATUS_CREATE_FAILED.as_bytes_vec(), uuid: Vec::new() }
        }
    }

    /// The file that holds the key that `request` asks for. The identifier is
    /// taken as it comes: it is not held to the form of those that
    /// [`Self::new_key`] issues.
    pub fn get_key_path(&self, request: GetKeyRequest) -> (r: String)
        ensures
            r@ == key_path_of(requested_kid(request.uuid@)),
    {
        let kid = match from_utf8(request.uuid) {
            Some(kid) => kid,
            None => NIL_KID.to_owned(),
        };
        key_path(kid.as_str())
    }

    /// The answer to a request for a key, given the outcome of reading its
    /// file: `OK` and the key's base64 text, or, where the file could not be
    /// read, [`STATUS_NOT_FOUND`] and no key. A key too large for its text to
    /// fit the machine counts as not found.
    pub fn get_key(&self, read: Result<Vec<u8>, String>) -> (r: GetKeyResponse)
        ensures
            match read {
                Ok(data) if base64_fits(data@.len()) => {
                    &&& r.status@ == text_bytes(STATUS_OK@)
                    &&& r.key@ == text_bytes(base64_text(data@))
                },
                _ => {
                    &&& r.status@ == text_bytes(STATUS_NOT_FOUND@)
                    &&& r.key@ == Seq::<u8>::empty()
                },
            },
    {
        let text = match read {
            Ok(data) => to_base64(data.as_slice()),
            Err(_) => None,
        };
        self.key_response(text)
    }

    /// The answer that carries a key's base64 text, or that says that there is
    /// no such key.
    pub fn key_response(&self, text: Option<String>) -> (r: GetKeyResponse)
        ensures
            match text {
                Some(text) => {
                    &&& r.status@ == text_bytes(STATUS_OK@)
                    &&& r.key@ == text_bytes(text@)
                },
                None => {
                    &&& r.status@ == text_bytes(STATUS_NOT_FOUND@)
                    &&& r.key@ == Seq::<u8>::empty()
                },
            },
    {
        match text {
            Some(text) => GetKeyResponse {
                status: STATUS_OK.as_bytes_vec(),
                key: text.as_str().as_bytes_vec(),
            },
            None => GetKeyResponse { status: STATUS_NOT_FOUND.as_bytes_vec(), key: Vec::new() },
        }
    }

    /// The answer to a request to delete a key: deleting is not offered, and
    /// nothing is deleted.
    pub fn delete_key(&self) -> (r: DeleteKeyResponse)
        ensures
            r.status@ == text_bytes(STATUS_NOT_IMPLEMENTED@),
    {
        DeleteKeyResponse { status: STATUS_NOT_IMPLEMENTED.as_bytes_vec() }
    }
}

/// The stand-in identifier is none that [`keyManagerService::new_key`] issues:
/// a request whose bytes are not UTF-8 never reaches a key that was created.
pub proof fn lemma_nil_kid_is_never_issued()
    ensures
        !is_kid(NIL_KID@),
{
    reveal_strlit("00000000-0000-0000-0000-000000000000");
}

/// What one request creates, the next finds: a request that names a key by the
/// bytes of its identifier is answered from the file in which that key was
/// stored.
pub proof fn lemma_get_reads_where_create_wrote(kid: Seq<char>)
    ensures
        requested_kid(text_bytes(kid)) == kid,
        key_path_of(requested_kid(text_bytes(kid))) == key_path_of(kid),
{
    encode_utf8_valid_utf8(kid);
    encode_utf8_decode_utf8(kid);
}

/// On a store that keeps what it is given, a key that was created is the key
/// that is read under its identifier, and creating it touches no other key.
pub proof fn lemma_created_key_is_found(
    store: Store,
    kid: Seq<char>,
    key: Seq<u8>,
    other: Seq<char>,
)
    ensures
        ({
            let after = store.insert(key_path_of(kid), key);
            let read = key_path_of(requested_kid(text_bytes(kid)));
            &&& after.dom().contains(read)
            &&& after[read] == key
            &&& other != kid ==> after.dom().contains(key_path_of(other))
                == store.dom().contains(key_path_of(other))
            &&& other != kid ==> after[key_path_of(other)] == store[key_path_of(other)]
        }),
{
    lemma_get_reads_where_create_wrote(kid);
    if other != kid && key_path_of(other) == key_path_of(kid) {
        lemma_key_path_injective(other, kid);
    }
}

} // verus!
