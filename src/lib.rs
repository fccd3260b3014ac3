//! Verified core of a licensed-package download service: credential
//! encryption with key rotation, classification of remote store replies,
//! chunked-download planning with bounded retries, the download state
//! machine, and the archive rewrite that embeds a license blob.

pub mod archive;
pub mod chunks;
pub mod classify;
pub mod codec;
pub mod crypto;
pub mod jobs;
pub mod key_manager;
pub mod models;
pub mod orchestrator;
pub mod remote;
pub mod signature;
pub mod text;
