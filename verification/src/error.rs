//! The failures the acquisition protocol detects locally, before any channel
//! is touched. Open, seek and read failures against the underlying storage
//! belong to the embedding caller, which owns the channels.

use vstd::prelude::*;

verus! {

/// A failure detected while planning the acquisition of an entry reader.
#[derive(Clone, Copy, PartialEq, Eq, Structural, Debug)]
pub enum ZipError {
    /// The caller supplied an index at or past the end of the entry sequence.
    /// Fully recoverable; no channel was opened.
    EntryIndexOutOfBounds,
    /// The entry lacks the declared size needed to bound its read window.
    EntryMissingSize,
}

} // verus!
