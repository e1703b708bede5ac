use file_graph::metadata::classify;
use file_graph::metadata::metadata_of;
use file_graph::metadata::GqlFileType;
use file_graph::metadata::MetadataError;
use file_graph::metadata::OsInstant;
use file_graph::metadata::OsMetadataSnapshot;
use file_graph::metadata::Timestamp;

fn snapshot() -> OsMetadataSnapshot {
    OsMetadataSnapshot {
        is_dir: false,
        is_file: true,
        is_symlink: false,
        len: 3 * 1024 + 1023,
        read_only: true,
        modified: OsInstant::SinceEpoch { secs: 1_700_000_000, nanos: 123_456_789 },
        accessed: OsInstant::SinceEpoch { secs: 1_700_000_001, nanos: 0 },
        created: OsInstant::SinceEpoch { secs: 1_600_000_000, nanos: 999_999_999 },
    }
}

#[test]
fn mapping_fills_every_field() {
    let m = metadata_of(&snapshot()).unwrap();
    assert_eq!(m.file_type, GqlFileType::File);
    assert_eq!(m.size_kb, 3); // 4095 bytes floor to 3 kb
    assert!(m.read_only);
    assert_eq!(m.modified, Timestamp { secs: 1_700_000_000, nanos: 123_456_789 });
    assert_eq!(m.accessed, Timestamp { secs: 1_700_000_001, nanos: 0 });
    assert_eq!(m.created, Timestamp { secs: 1_600_000_000, nanos: 999_999_999 });
}

#[test]
fn mapping_is_deterministic() {
    let s = snapshot();
    assert_eq!(metadata_of(&s), metadata_of(&s));
}

#[test]
fn small_file_floors_to_zero_kilobytes() {
    let s = OsMetadataSnapshot { len: 1023, ..snapshot() };
    assert_eq!(metadata_of(&s).unwrap().size_kb, 0);
}

#[test]
fn classification_is_a_priority_chain() {
    assert_eq!(classify(true, false, false), GqlFileType::Directory);
    assert_eq!(classify(false, true, false), GqlFileType::File);
    assert_eq!(classify(false, false, true), GqlFileType::Symlink);
    assert_eq!(classify(false, false, false), GqlFileType::Unsupported);
    // Ambiguous bits break the tie in chain order.
    assert_eq!(classify(true, true, true), GqlFileType::Directory);
    assert_eq!(classify(false, true, true), GqlFileType::File);
}

#[test]
fn oversized_length_fails_closed() {
    // One kilobyte over what a 32-bit signed count can hold.
    let s = OsMetadataSnapshot { len: (i32::MAX as u64 + 1) * 1024, ..snapshot() };
    assert_eq!(metadata_of(&s), Err(MetadataError::SizeOverflow));
    // The largest length that still fits.
    let s = OsMetadataSnapshot { len: i32::MAX as u64 * 1024 + 1023, ..snapshot() };
    assert_eq!(metadata_of(&s).unwrap().size_kb, i32::MAX);
}

#[test]
fn pre_epoch_timestamp_fails_closed() {
    let s = OsMetadataSnapshot { created: OsInstant::BeforeEpoch, ..snapshot() };
    assert_eq!(metadata_of(&s), Err(MetadataError::TimestampBeforeEpoch));
}

#[test]
fn unavailable_timestamp_fails_closed() {
    let s = OsMetadataSnapshot { accessed: OsInstant::Unavailable, ..snapshot() };
    assert_eq!(metadata_of(&s), Err(MetadataError::TimestampUnavailable));
}

#[test]
fn mapping_errors_follow_a_fixed_precedence() {
    // Size is checked first, then modified, accessed, created in order.
    let s = OsMetadataSnapshot {
        len: (i32::MAX as u64 + 1) * 1024,
        modified: OsInstant::BeforeEpoch,
        ..snapshot()
    };
    assert_eq!(metadata_of(&s), Err(MetadataError::SizeOverflow));
    let s = OsMetadataSnapshot {
        modified: OsInstant::BeforeEpoch,
        accessed: OsInstant::Unavailable,
        ..snapshot()
    };
    assert_eq!(metadata_of(&s), Err(MetadataError::TimestampBeforeEpoch));
}
