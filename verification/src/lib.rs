//! A small vault for API keys: entries are kept AES-256-GCM encrypted under a
//! key derived from a master passphrase and a per-vault salt.
pub mod backend;
pub mod crypto;
pub mod paths;
pub mod cli;
pub mod vault;
pub mod commands;
