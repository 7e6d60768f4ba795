//! The broker as its callers see it: requests in, responses out.

pub mod api;
pub mod gpg;
pub mod key_manager;
