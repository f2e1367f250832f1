use async_zip::concurrent::ZipFileReader;
use async_zip::entry::{Compression, ZipEntry};
use async_zip::error::ZipError;

fn sample_entries() -> Vec<ZipEntry> {
    vec![
        ZipEntry::new("foo.txt".to_string(), Compression::Stored, 50, Some(10)),
        ZipEntry::new("bar.bin".to_string(), Compression::Deflate, 80, Some(5)),
        ZipEntry::new("foo.txt".to_string(), Compression::Stored, 120, Some(3)),
    ]
}

#[test]
fn entries_returns_indexed_sequence() {
    let zip = ZipFileReader::new("a.zip".to_string(), sample_entries());
    assert_eq!(zip.entries().len(), 3);
    assert_eq!(zip.entries()[0].name().as_str(), "foo.txt");
    assert_eq!(zip.entries()[1].name().as_str(), "bar.bin");
    assert_eq!(zip.entries()[0].data_offset(), 50);
    assert_eq!(zip.entries()[1].uncompressed_size(), Some(5));
    assert_eq!(zip.filename().as_str(), "a.zip");
}

#[test]
fn lookup_finds_exact_match() {
    let zip = ZipFileReader::new("a.zip".to_string(), sample_entries());
    let (index, entry) = zip.entry("bar.bin").expect("bar.bin is indexed");
    assert_eq!(index, 1);
    assert_eq!(entry.name().as_str(), "bar.bin");
    assert_eq!(entry.data_offset(), 80);
    assert_eq!(entry.compression(), Compression::Deflate);
}

#[test]
fn lookup_duplicate_name_resolves_to_lowest_index() {
    let zip = ZipFileReader::new("a.zip".to_string(), sample_entries());
    let (index, entry) = zip.entry("foo.txt").expect("foo.txt is indexed");
    assert_eq!(index, 0);
    assert_eq!(entry.data_offset(), 50);
}

#[test]
fn lookup_is_case_sensitive_and_reports_not_found() {
    let zip = ZipFileReader::new("a.zip".to_string(), sample_entries());
    assert!(zip.entry("FOO.TXT").is_none());
    assert!(zip.entry("absent").is_none());
    assert!(zip.entry("").is_none());
}

#[test]
fn lookup_never_mutates_state() {
    let zip = ZipFileReader::new("a.zip".to_string(), sample_entries());
    let first = zip.entry("bar.bin").map(|(i, _)| i);
    let _ = zip.entry("absent");
    let second = zip.entry("bar.bin").map(|(i, _)| i);
    assert_eq!(first, second);
    assert_eq!(zip.entries().len(), 3);
}

#[test]
fn entry_reader_out_of_bounds_on_empty_archive() {
    let zip = ZipFileReader::new("empty.zip".to_string(), Vec::new());
    assert_eq!(zip.entries().len(), 0);
    assert_eq!(zip.entry_reader(0), Err(ZipError::EntryIndexOutOfBounds));
}

#[test]
fn entry_reader_out_of_bounds_past_end() {
    let zip = ZipFileReader::new("a.zip".to_string(), sample_entries());
    assert_eq!(zip.entry_reader(3), Err(ZipError::EntryIndexOutOfBounds));
    assert_eq!(zip.entry_reader(usize::MAX), Err(ZipError::EntryIndexOutOfBounds));
}

#[test]
fn entry_reader_missing_size_is_recoverable() {
    let entries = vec![ZipEntry::new(
        "unsized.bin".to_string(),
        Compression::Stored,
        40,
        None,
    )];
    let zip = ZipFileReader::new("a.zip".to_string(), entries);
    assert_eq!(zip.entry_reader(0), Err(ZipError::EntryMissingSize));
}

#[test]
fn entry_reader_plans_from_the_descriptor() {
    let zip = ZipFileReader::new("a.zip".to_string(), sample_entries());
    let reader = zip.entry_reader(1).expect("index 1 is valid and sized");
    assert_eq!(reader.data_offset(), 80);
    assert_eq!(reader.byte_limit(), 5);
    assert_eq!(reader.compression(), Compression::Deflate);
    assert_eq!(reader.remaining(), 5);
    assert!(!reader.is_exhausted());
}

#[test]
fn repeated_acquisitions_start_identically() {
    let zip = ZipFileReader::new("a.zip".to_string(), sample_entries());
    let first = zip.entry_reader(0);
    let second = zip.entry_reader(0);
    assert_eq!(first, second);
}

#[test]
fn acquisitions_for_distinct_indices_are_independent() {
    let zip = ZipFileReader::new("a.zip".to_string(), sample_entries());
    let mut reader0 = zip.entry_reader(0).expect("index 0 is valid");
    let reader1 = zip.entry_reader(1).expect("index 1 is valid");
    reader0.advance(10);
    assert!(reader0.is_exhausted());
    assert_eq!(reader1.remaining(), 5);
    assert!(!reader1.is_exhausted());
    let fresh0 = zip.entry_reader(0).expect("index 0 is still valid");
    assert_eq!(fresh0.remaining(), 10);
}

#[test]
fn cursor_is_bounded_and_forward_only() {
    let zip = ZipFileReader::new("a.zip".to_string(), sample_entries());
    let mut reader = zip.entry_reader(0).expect("index 0 is valid");
    assert_eq!(reader.byte_limit(), 10);
    assert_eq!(reader.grant(4), 4);
    reader.advance(4);
    assert_eq!(reader.remaining(), 6);
    assert_eq!(reader.grant(100), 6);
    reader.advance(6);
    assert!(reader.is_exhausted());
    assert_eq!(reader.remaining(), 0);
    assert_eq!(reader.grant(1), 0);
}

#[test]
fn zero_sized_entry_is_exhausted_at_acquisition() {
    let entries = vec![ZipEntry::new(
        "empty.txt".to_string(),
        Compression::Stored,
        30,
        Some(0),
    )];
    let zip = ZipFileReader::new("a.zip".to_string(), entries);
    let reader = zip.entry_reader(0).expect("zero size is still a size");
    assert!(reader.is_exhausted());
    assert_eq!(reader.grant(8), 0);
}

#[test]
fn two_entry_scenario() {
    let entries = vec![
        ZipEntry::new("foo.txt".to_string(), Compression::Stored, 50, Some(10)),
        ZipEntry::new("bar.bin".to_string(), Compression::Deflate, 80, Some(5)),
    ];
    let zip = ZipFileReader::new("a.zip".to_string(), entries);
    assert_eq!(zip.entries().len(), 2);

    let (index, entry) = zip.entry("bar.bin").expect("bar.bin is indexed");
    assert_eq!(index, 1);
    assert_eq!(entry.name().as_str(), "bar.bin");

    let reader = zip.entry_reader(0).expect("index 0 is valid");
    assert_eq!(reader.data_offset(), 50);
    assert_eq!(reader.byte_limit(), 10);
    assert_eq!(reader.compression(), Compression::Stored);

    assert_eq!(zip.entry_reader(2), Err(ZipError::EntryIndexOutOfBounds));
}
