//! Entry descriptors: the immutable per-entry records produced by the
//! directory indexer at construction time.

use vstd::prelude::*;

verus! {

/// The transform an entry's payload was encoded with.
#[derive(Clone, Copy, PartialEq, Eq, Structural, Debug)]
pub enum Compression {
    /// Passthrough: the payload is stored verbatim.
    Stored,
    /// The deflate compression scheme.
    Deflate,
}

/// An immutable record describing one archive entry: its name, the transform
/// applied to its payload, the absolute byte offset where the payload begins,
/// and the declared uncompressed size, which the indexer may leave unknown.
///
/// Names are not guaranteed unique; an entry's stable public identity is its
/// index position in the archive reader's sequence.
pub struct ZipEntry {
    pub name: String,
    pub compression: Compression,
    pub data_offset: u64,
    pub uncompressed_size: Option<u32>,
}

impl ZipEntry {
    /// Builds a descriptor from its four fields.
    pub fn new(
        name: String,
        compression: Compression,
        data_offset: u64,
        uncompressed_size: Option<u32>,
    ) -> (r: ZipEntry)
        ensures
            r.name@ == name@,
            r.compression == compression,
            r.data_offset == data_offset,
            r.uncompressed_size == uncompressed_size,
    {
        ZipEntry { name, compression, data_offset, uncompressed_size }
    }

    /// The entry's name, exactly as the index recorded it.
    pub fn name(&self) -> (r: &String)
        ensures
            r@ == self.name@,
    {
        &self.name
    }

    /// The transform applied to the entry's payload.
    pub fn compression(&self) -> (r: Compression)
        ensures
            r == self.compression,
    {
        self.compression
    }

    /// The absolute byte position in the archive where the payload begins.
    pub fn data_offset(&self) -> (r: u64)
        ensures
            r == self.data_offset,
    {
        self.data_offset
    }

    /// The declared uncompressed size, if the index recorded one.
    pub fn uncompressed_size(&self) -> (r: Option<u32>)
        ensures
            r == self.uncompressed_size,
    {
        self.uncompressed_size
    }
}

} // verus!
