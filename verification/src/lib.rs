//! Data-availability gateway core: the client capability contract, the blob
//! identifier codec, the chunk envelope and its reconstruction, and the
//! retriable/fatal error classification.

pub mod clients;
pub mod config;
pub mod decimal;
pub mod handlers;
pub mod services;
pub mod types;
