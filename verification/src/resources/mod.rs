//! What is kept on disk: key files, the keyring, and how a file is replaced.

pub mod directory_key_manager;
pub mod file;
pub mod gpg;
