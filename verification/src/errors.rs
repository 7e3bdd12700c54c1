//! The adapter's error domain: one kind, a storage-layer failure wrapped
//! with its original cause embedded, never classified and never retried.

use vstd::prelude::*;

verus! {

#[verifier::external_type_specification]
#[verifier::external_body]
pub struct ExIoError(std::io::Error);

/// The opaque cause embedded in a wrapped failure: whichever error value the
/// storage layer surfaced, carried as it came.
#[derive(Debug)]
pub enum BackendCause {
    /// What the store reported when a chunk could not be accepted.
    Store(object_store::Error),
    /// What flushing and committing surfaced.
    Io(std::io::Error),
}

/// The single error the adapter returns: an opaque backend failure with its
/// cause embedded, left for the caller or the storage client to act on.
#[derive(Debug)]
pub enum ParquetError {
    /// A failure of the storage layer, wrapped as-is.
    External(BackendCause),
}

} // verus!
