//! Brute-force search for a signing keypair whose OpenSSH public text
//! contains a chosen pattern, run by a pool of parallel workers.

pub mod matcher;
pub mod progress;
pub mod keys;
pub mod search;
pub mod config;
