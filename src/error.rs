//! The pipeline's error taxonomy.
use vstd::prelude::*;

verus! {

/// Why an operation of the pipeline failed.
#[derive(Clone, Copy, Debug, PartialEq, Eq, Structural)]
pub enum BOMError {
    /// The remote source refused the connection or the anonymous login.
    SourceUnavailable,
    /// A download from the remote source failed or was cut short.
    Transfer,
    /// The object store failed to read, write, list or delete.
    Storage,
    /// Bytes that should hold an image could not be decoded.
    ImageDecode,
    /// An image could not be encoded.
    ImageEncode,
    /// Required configuration is missing.
    Configuration,
    /// A step was handed an event it was not waiting for.
    OutOfSequence,
}

} // verus!
