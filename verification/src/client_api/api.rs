//! The messages of the two services.
//!
//! Every response carries a `status`: the bytes of `OK`, of another fixed
//! confirmation, or of a diagnostic. What else a response carries counts only
//! where the status says that the operation succeeded.

use vstd::prelude::*;

verus! {

/// The status of an operation that succeeded and has nothing more to say.
pub const STATUS_OK: &'static str = "OK";

/// Asks for the listing of the keyring.
#[derive(Debug, Default, PartialEq, Eq)]
pub struct ListGpgKeysRequest {}

/// The listing of the keyring, as the tool printed it.
#[derive(Debug, Default, PartialEq, Eq)]
pub struct ListGpgKeysResponse {
    pub keys: Vec<u8>,
}

/// Asks to import a key into the keyring.
#[derive(Debug, Default, PartialEq, Eq)]
pub struct ImportGpgKeyRequest {
    pub key: Vec<u8>,
}

/// What the tool said of the import.
#[derive(Debug, Default, PartialEq, Eq)]
pub struct ImportGpgKeyResponse {
    pub status: Vec<u8>,
}

/// Asks to delete the key with this id from the keyring.
#[derive(Debug, Default, PartialEq, Eq)]
pub struct DeleteGpgKeyRequest {
    pub keyid: Vec<u8>,
}

/// Whether the key was deleted.
#[derive(Debug, Default, PartialEq, Eq)]
pub struct DeleteGpgKeyResponse {
    pub status: Vec<u8>,
}

/// Asks for the whole keyring.
#[derive(Debug, Default, PartialEq, Eq)]
pub struct ExportGpgKeyringRequest {}

/// The keyring as base64 text.
#[derive(Debug, Default, PartialEq, Eq)]
pub struct ExportGpgKeyringResponse {
    pub status: Vec<u8>,
    pub content: Vec<u8>,
}

/// Asks for a new symmetric key.
#[derive(Debug, Default, PartialEq, Eq)]
pub struct CreateKeyRequest {}

/// The identifier of the new key.
#[derive(Debug, Default, PartialEq, Eq)]
pub struct CreateKeyResponse {
    pub status: Vec<u8>,
    pub uuid: Vec<u8>,
}

/// Asks for the key with this identifier.
#[derive(Debug, Default, PartialEq, Eq)]
pub struct GetKeyRequest {
    pub uuid: Vec<u8>,
}

/// The key as base64 text.
#[derive(Debug, Default, PartialEq, Eq)]
pub struct GetKeyResponse {
    pub status: Vec<u8>,
    pub key: Vec<u8>,
}

/// Asks to delete a symmetric key.
#[derive(Debug, Default, PartialEq, Eq)]
pub struct DeleteKeyRequest {}

/// The answer to a request to delete a symmetric key.
#[derive(Debug, Default, PartialEq, Eq)]
pub struct DeleteKeyResponse {
    pub status: Vec<u8>,
}

} // verus!
