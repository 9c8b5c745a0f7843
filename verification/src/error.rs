//! Failure taxonomy shared by every stage of the runner.

use vstd::prelude::*;

verus! {

/// One variant per failure class; no stage retries, every failure is
/// surfaced to the caller with the data needed to report it.
#[derive(Debug, PartialEq, Eq)]
pub enum Error {
    /// A required setting is absent (for example, no broker address was
    /// configured although an encrypted image demands one).
    Configuration(String),
    /// A malformed resource reference, a failed trust handshake, or a
    /// non-success broker status.
    Protocol(String),
    /// The fetched key is not canonical: neither 32 bytes long nor a
    /// base64 wrapping of 32 bytes. Carries the original byte length and,
    /// when the base64 decode itself succeeded, the decoded length.
    KeyValidation { original_len: usize, decoded_len: Option<usize> },
    /// Manifest, layer fetch or layer decryption failure.
    Pull(String),
    /// No runnable module was found; carries the searched store path.
    ArtifactNotFound(String),
    /// The external runtime process could not be spawned.
    ExecutionSpawn(String),
    /// The external runtime exited with a non-zero status; carries the
    /// exit code when the platform reported one.
    ExecutionExit(Option<i32>),
}

} // verus!
