use file_graph::dirent::GqlDirentDTO;
use file_graph::dirent::RawDirEntry;
use file_graph::dirent::RawEntryOutcome;
use file_graph::metadata::OsInstant;
use file_graph::metadata::OsMetadataSnapshot;
use file_graph::query::QueryRoot;

fn snapshot(len: u64) -> OsMetadataSnapshot {
    OsMetadataSnapshot {
        is_dir: false,
        is_file: true,
        is_symlink: false,
        len,
        read_only: false,
        modified: OsInstant::SinceEpoch { secs: 1_700_000_000, nanos: 0 },
        accessed: OsInstant::SinceEpoch { secs: 1_700_000_001, nanos: 0 },
        created: OsInstant::SinceEpoch { secs: 1_600_000_000, nanos: 0 },
    }
}

#[test]
fn test_ping() {
    let r = QueryRoot::ping();
    assert_eq!(r.pong, "Pong!");
}

#[test]
fn test_dir_read() {
    // The OS failure for a listing of "/file/that/doesn't/exist".
    let listing: Result<Vec<RawEntryOutcome>, String> =
        Err("No such file or directory (os error 2)".to_string());
    let r = QueryRoot::read_dir(&listing);
    assert!(r.is_err(), "Nonexistent directories should return errors.");
    let e = r.unwrap_err();
    assert_eq!(
        e.message,
        "Could not retrieve directory: No such file or directory (os error 2)."
    );
    assert_eq!(e.kind_text(), "Directory not found");
    assert!(e.message.contains("No such file or directory"));
}

#[test]
fn test_file_read() {
    // The OS failure for a read of "/file/that/doesn't/exist".
    let r = QueryRoot::read_file(Err("No such file or directory (os error 2)".to_string()));
    assert!(r.is_err(), "Nonexistent files should return errors.");
    let e = r.unwrap_err();
    assert_eq!(
        e.message,
        "Could not retrieve file: No such file or directory (os error 2)."
    );
    assert_eq!(e.kind_text(), "File not found");
}

#[test]
fn empty_directory_lists_empty() {
    let r = QueryRoot::read_dir(&Ok(Vec::new()));
    let entries = r.expect("an empty listing is not an error");
    assert_eq!(entries.len(), 0);
}

#[test]
fn one_unreadable_entry_stays_in_listing() {
    // Three enumerable entries; the middle one's metadata read failed (a
    // broken symlink).  All three must come back, the broken one as a
    // success with absent metadata.
    let outcomes = vec![
        RawEntryOutcome::Entry(RawDirEntry {
            path: "/d/a".to_string(),
            file_name: "a".to_string(),
            metadata: Some(snapshot(2048)),
        }),
        RawEntryOutcome::Entry(RawDirEntry {
            path: "/d/broken".to_string(),
            file_name: "broken".to_string(),
            metadata: None,
        }),
        RawEntryOutcome::Entry(RawDirEntry {
            path: "/d/b".to_string(),
            file_name: "b".to_string(),
            metadata: Some(snapshot(4096)),
        }),
    ];
    let entries = QueryRoot::read_dir(&Ok(outcomes)).unwrap();
    assert_eq!(entries.len(), 3);
    let broken = &entries[1];
    assert!(broken.error.is_none());
    let data = broken.data.as_ref().unwrap();
    assert_eq!(data.path, "/d/broken");
    assert_eq!(data.file_name, "broken");
    assert!(data.metadata.is_none());
    assert_eq!(entries[0].data.as_ref().unwrap().metadata.unwrap().size_kb, 2);
    assert_eq!(entries[2].data.as_ref().unwrap().metadata.unwrap().size_kb, 4);
}

#[test]
fn failed_enumeration_item_becomes_failure_tag() {
    let outcomes = vec![
        RawEntryOutcome::Entry(RawDirEntry {
            path: "/d/a".to_string(),
            file_name: "a".to_string(),
            metadata: Some(snapshot(0)),
        }),
        RawEntryOutcome::Error("stat failed mid-enumeration".to_string()),
    ];
    let entries = QueryRoot::read_dir(&Ok(outcomes)).unwrap();
    assert_eq!(entries.len(), 2);
    assert_eq!(
        entries[1],
        GqlDirentDTO { data: None, error: Some("stat failed mid-enumeration".to_string()) }
    );
}

#[test]
fn read_home_passes_located_directory_through() {
    let r = QueryRoot::read_home(Some("/home/somebody".to_string()));
    assert_eq!(r.unwrap(), "/home/somebody");
}

#[test]
fn read_home_missing_is_directory_error() {
    let e = QueryRoot::read_home(None).unwrap_err();
    assert_eq!(e.message, "Could not retrieve home directory.");
    assert_eq!(e.kind_text(), "Directory not found");
}
