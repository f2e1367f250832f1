//! Concurrent, random-access reading of individually compressed entries
//! inside a single seekable archive.
//!
//! The archive's directory is indexed once, up front, into an immutable
//! sequence of entry descriptors. Every subsequent acquisition of an entry
//! reader is planned from that sequence alone: the plan names the channel to
//! open, the offset to seek to, the byte bound for the raw window, and the
//! decoding transform to layer on top. Because the sequence never changes and
//! each acquired reader owns its channel exclusively, any number of
//! acquisitions may run concurrently without shared mutable state.

pub mod concurrent;
pub mod entry;
pub mod error;
