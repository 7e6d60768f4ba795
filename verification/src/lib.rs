//! Key custody for a host that hands out symmetric keys and an OpenPGP keyring.
//!
//! The crate holds the decisions of the broker and leaves every effect to its
//! caller: where a key file lives, which command line the keyring tool is run
//! with, how a write is guarded by a backup, how the keyring's lock is held,
//! how an outcome becomes a response, and authenticated encryption with a
//! caller-supplied key and nonce.
//!
//! - [`client_api`]: the two services and their messages.
//! - [`resources`]: the key files, the keyring and the replacing of a file.
//! - [`crypto`]: AES-256-GCM.
//! - [`encoding`]: base64 and UTF-8.

pub mod client_api;
pub mod crypto;
pub mod encoding;
pub mod resources;
