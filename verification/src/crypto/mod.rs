//! Cryptographic operations.

pub mod aes256_gcm;
