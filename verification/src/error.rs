//! Error taxonomy of the client library.
//!
//! Every operation surfaces failures immediately to its caller under one of
//! these categories, so that the caller can decide between retrying and
//! aborting: transport failures are retryable, malformed payloads and key
//! problems are not, and a committed-but-failed transaction carries the
//! chain-reported code and log.

use vstd::prelude::*;

verus! {

/// Error returned by the client library.
#[derive(Debug)]
pub enum RwaError {
    /// Transport-level failure; no chain state was changed, safe to retry.
    NetworkError(String),
    /// A payload could not be encoded for the wire; not retryable as-is.
    EncodingError(String),
    /// A response from the chain could not be decoded; not retryable as-is.
    DecodeError(String),
    /// The signing key could not produce a signature for the document.
    SigningError(String),
    /// The chain committed the transaction, but the transaction itself
    /// failed with a non-zero result code.
    ExecutionError { code: u32, log: String, data: Vec<u8> },
    /// The queried entity does not exist on-chain; often an expected outcome.
    NotFound,
}

} // verus!
