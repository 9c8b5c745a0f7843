//! Key-broker client and encrypted-artifact resolution for a TEE module runner.
//!
//! The library holds the decision logic of the runner: resource-reference
//! parsing, key normalization, manifest classification, decryption-path
//! selection, diff-id synthesis, module discovery and runtime invocation
//! planning. Network and file transport live outside the library and hand
//! plain values in.

pub mod broker;
pub mod error;
pub mod invoke;
pub mod key;
pub mod locate;
pub mod manifest;
pub mod pull;
pub mod resource;
pub mod text;
