//! The concurrent entry-acquisition protocol.
//!
//! An archive reader holds only a locator and the immutable entry sequence;
//! it never retains an open channel. Each acquisition is planned here from
//! plain values — validate the index, pick the payload offset, bound the
//! readable window by the declared size, name the decoding transform — and
//! the embedding caller then opens a fresh, exclusively owned channel per
//! plan. Since planning reads nothing but immutable state, any number of
//! acquisitions may be in flight at once.

use vstd::prelude::*;

use crate::entry::{Compression, ZipEntry};
use crate::error::ZipError;

verus! {

/// Everything the embedding caller needs to open, position, bound and wrap
/// one entry's data channel.
#[derive(Clone, Copy, PartialEq, Eq, Structural, Debug)]
pub struct AcquisitionPlan {
    /// Absolute byte position of the payload's first byte.
    pub data_offset: u64,
    /// Hard bound on the readable window, from the declared size.
    pub byte_limit: u64,
    /// The transform to layer over the bounded window.
    pub compression: Compression,
}

/// How an entry reader for `index` is acquired over an entry sequence: an
/// index at or past the end is out of bounds, an entry without a declared
/// size cannot be bounded, and every other entry yields the plan made of its
/// recorded offset, size and transform. Planning depends on nothing else, so
/// the outcome is identical however many acquisitions run at once.
pub open spec fn acquisition_plan(entries: Seq<ZipEntry>, index: int) -> Result<
    AcquisitionPlan,
    ZipError,
> {
    if !(0 <= index < entries.len()) {
        Err(ZipError::EntryIndexOutOfBounds)
    } else if entries[index].uncompressed_size is None {
        Err(ZipError::EntryMissingSize)
    } else {
        Ok(
            AcquisitionPlan {
                data_offset: entries[index].data_offset,
                byte_limit: entries[index].uncompressed_size->0 as u64,
                compression: entries[index].compression,
            },
        )
    }
}

/// A reader which acts concurrently over one seekable archive.
///
/// Construction stores the locator and the indexed entry sequence; both are
/// immutable for the reader's lifetime, so indices stay valid forever and the
/// reader can be shared freely across concurrent acquisitions.
pub struct ZipFileReader {
    filename: String,
    entries: Vec<ZipEntry>,
}

impl ZipFileReader {
    /// The stored archive locator.
    pub closed spec fn spec_filename(&self) -> Seq<char> {
        self.filename@
    }

    /// The stored entry sequence, in directory-index order.
    pub closed spec fn spec_entries(&self) -> Seq<ZipEntry> {
        self.entries@
    }

    /// Stores the archive locator and the entry sequence the directory
    /// indexer produced from it. The one open-and-parse pass over the archive
    /// belongs to that collaborator; no open channel is retained here.
    pub fn new(filename: String, entries: Vec<ZipEntry>) -> (r: ZipFileReader)
        ensures
            r.spec_filename() == filename@,
            r.spec_entries() == entries@,
    {
        ZipFileReader { filename, entries }
    }

    /// The locator every acquisition reopens.
    pub fn filename(&self) -> (r: &String)
        ensures
            r@ == self.spec_filename(),
    {
        &self.filename
    }

    /// Returns a shared reference to the list of the archive's entries.
    pub fn entries(&self) -> (r: &Vec<ZipEntry>)
        ensures
            r@ == self.spec_entries(),
    {
        &self.entries
    }

    /// Searches for an entry with a specific name, by exact, case-sensitive
    /// equality and without any path normalization, scanning in index order.
    /// Duplicate names resolve to the lowest index; `None` means no entry
    /// carries the name.
    pub fn entry(&self, name: &str) -> (r: Option<(usize, &ZipEntry)>)
        ensures
            match r {
                Some(found) => {
                    &&& (found.0 as int) < self.spec_entries().len()
                    &&& *found.1 == self.spec_entries()[found.0 as int]
                    &&& found.1.name@ == name@
                    &&& forall|j: int|
                        0 <= j < found.0 as int ==> (#[trigger] self.spec_entries()[j]).name@
                            != name@
                },
                None => forall|j: int|
                    0 <= j < self.spec_entries().len() ==> (#[trigger] self.spec_entries()[j]).name@
                        != name@,
            },
    {
        let wanted: String = name.to_owned();
        let total: usize = self.entries.len();
        let mut index: usize = 0;
        while index < total
            invariant
                total == self.spec_entries().len(),
                index <= total,
                wanted@ == name@,
                forall|j: int|
                    0 <= j < index ==> (#[trigger] self.spec_entries()[j]).name@ != name@,
            decreases total - index,
        {
            let candidate = &self.entries[index];
            if candidate.name == wanted {
                return Some((index, candidate));
            }
            index = index + 1;
        }
        None
    }

    /// Plans the acquisition of an independent reader for the entry at the
    /// provided index: exactly the out-of-bounds failure when the index is
    /// invalid, exactly the missing-size failure when the entry's declared
    /// size is unknown, and otherwise a fresh reader positioned at the
    /// entry's payload with nothing consumed yet. No channel is touched and
    /// nothing is mutated, so the outcome is a pure function of the immutable
    /// entry sequence and the index.
    pub fn entry_reader(&self, index: usize) -> (r: Result<EntryReader, ZipError>)
        ensures
            match acquisition_plan(self.spec_entries(), index as int) {
                Ok(plan) => {
                    &&& r is Ok
                    &&& r->Ok_0.wf()
                    &&& r->Ok_0.follows(plan)
                    &&& r->Ok_0.spec_consumed() == 0
                },
                Err(failure) => r == Err::<EntryReader, ZipError>(failure),
            },
            index >= self.spec_entries().len() <==> r == Err::<EntryReader, ZipError>(
                ZipError::EntryIndexOutOfBounds,
            ),
            index < self.spec_entries().len() && self.spec_entries()[index as int].uncompressed_size
                is None <==> r == Err::<EntryReader, ZipError>(ZipError::EntryMissingSize),
    {
        if index >= self.entries.len() {
            return Err(ZipError::EntryIndexOutOfBounds);
        }
        let chosen = &self.entries[index];
        match chosen.uncompressed_size {
            None => Err(ZipError::EntryMissingSize),
            Some(size) => Ok(
                EntryReader {
                    data_offset: chosen.data_offset,
                    byte_limit: size as u64,
                    consumed: 0,
                    compression: chosen.compression,
                },
            ),
        }
    }
}

/// The ephemeral value returned per acquisition: the bounded, forward-only
/// cursor over one exclusively owned channel, together with the transform to
/// decode through. The embedding caller opens the channel, seeks it to
/// `data_offset()`, and then drives the cursor — asking `grant` how many
/// bytes the window still permits and recording each completed read with
/// `advance` — so no read can run past this entry's payload into the next
/// entry or the trailing index. Dropping the value abandons only its own
/// cursor state; no other reader is affected.
#[derive(Clone, Copy, PartialEq, Eq, Structural, Debug)]
pub struct EntryReader {
    data_offset: u64,
    byte_limit: u64,
    consumed: u64,
    compression: Compression,
}

impl EntryReader {
    /// Absolute byte position of the payload's first byte.
    pub closed spec fn spec_data_offset(&self) -> u64 {
        self.data_offset
    }

    /// Total bytes the bounded window permits.
    pub closed spec fn spec_byte_limit(&self) -> u64 {
        self.byte_limit
    }

    /// Bytes already consumed from the window.
    pub closed spec fn spec_consumed(&self) -> u64 {
        self.consumed
    }

    /// The transform layered over the bounded window.
    pub closed spec fn spec_compression(&self) -> Compression {
        self.compression
    }

    /// The cursor never runs past its bounded window.
    pub open spec fn wf(&self) -> bool {
        self.spec_consumed() <= self.spec_byte_limit()
    }

    /// The reader carries exactly the offset, bound and transform its
    /// acquisition plan named.
    pub open spec fn follows(&self, plan: AcquisitionPlan) -> bool {
        &&& self.spec_data_offset() == plan.data_offset
        &&& self.spec_byte_limit() == plan.byte_limit
        &&& self.spec_compression() == plan.compression
    }

    /// Where the caller must position the fresh channel before reading.
    pub fn data_offset(&self) -> (r: u64)
        ensures
            r == self.spec_data_offset(),
    {
        self.data_offset
    }

    /// The fixed size of the readable window.
    pub fn byte_limit(&self) -> (r: u64)
        ensures
            r == self.spec_byte_limit(),
    {
        self.byte_limit
    }

    /// The transform the caller must decode through.
    pub fn compression(&self) -> (r: Compression)
        ensures
            r == self.spec_compression(),
    {
        self.compression
    }

    /// How many bytes the window still permits.
    pub fn remaining(&self) -> (r: u64)
        requires
            self.wf(),
        ensures
            r == self.spec_byte_limit() - self.spec_consumed(),
    {
        self.byte_limit - self.consumed
    }

    /// Whether the window is used up: once true, the reader is spent and a
    /// fresh acquisition is needed for another pass over the entry.
    pub fn is_exhausted(&self) -> (r: bool)
        requires
            self.wf(),
        ensures
            r == (self.spec_consumed() == self.spec_byte_limit()),
    {
        self.consumed == self.byte_limit
    }

    /// How much of a requested read the bounded window permits: the request
    /// itself when it fits, else exactly the bytes that remain.
    pub fn grant(&self, requested: u64) -> (r: u64)
        requires
            self.wf(),
        ensures
            r == vstd::math::min(
                requested as int,
                self.spec_byte_limit() - self.spec_consumed(),
            ),
    {
        let left = self.byte_limit - self.consumed;
        if requested <= left {
            requested
        } else {
            left
        }
    }

    /// Records that `count` bytes of the window were read. The cursor only
    /// moves forward, by exactly the bytes read, and everything else about
    /// the reader is unchanged.
    pub fn advance(&mut self, count: u64)
        requires
            old(self).wf(),
            count <= old(self).spec_byte_limit() - old(self).spec_consumed(),
        ensures
            final(self).wf(),
            final(self).spec_consumed() == old(self).spec_consumed() + count,
            final(self).spec_data_offset() == old(self).spec_data_offset(),
            final(self).spec_byte_limit() == old(self).spec_byte_limit(),
            final(self).spec_compression() == old(self).spec_compression(),
    {
        self.consumed = self.consumed + count;
    }
}

/// Acquisition reads nothing but the immutable entry sequence: two archive
/// readers holding equal sequences plan every index identically. Hence
/// concurrent acquisitions cannot influence one another's outcome, and
/// repeated acquisitions of one index always start from the same plan —
/// each fresh reader begins at the same offset with the same bound and
/// transform and nothing consumed.
pub proof fn lemma_acquisition_depends_only_on_entries(
    first: ZipFileReader,
    second: ZipFileReader,
    index: usize,
)
    requires
        first.spec_entries() == second.spec_entries(),
    ensures
        acquisition_plan(first.spec_entries(), index as int) == acquisition_plan(
            second.spec_entries(),
            index as int,
        ),
{
}

/// Every valid index whose entry carries a declared size acquires
/// successfully, and the acquired window is bounded by exactly that declared
/// size: an intact archive owes the caller a reader for each of its entries.
pub proof fn lemma_valid_index_acquires_declared_size(entries: Seq<ZipEntry>, index: int)
    requires
        0 <= index < entries.len(),
        entries[index].uncompressed_size is Some,
    ensures
        acquisition_plan(entries, index) is Ok,
        acquisition_plan(entries, index)->Ok_0.byte_limit
            == entries[index].uncompressed_size->0 as u64,
        acquisition_plan(entries, index)->Ok_0.data_offset == entries[index].data_offset,
{
}

/// A reader driven to exhaustion has consumed exactly its byte limit — the
/// entry's declared uncompressed size — never more and never less.
pub proof fn lemma_exhausted_reader_consumed_declared_size(reader: EntryReader)
    requires
        reader.wf(),
        reader.spec_byte_limit() - reader.spec_consumed() == 0,
    ensures
        reader.spec_consumed() == reader.spec_byte_limit(),
{
}

} // verus!
