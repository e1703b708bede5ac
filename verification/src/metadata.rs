//! Metadata mapper: turns a plain-value snapshot of one operating-system
//! metadata record into a normalized, fully-populated `GqlFileMetadata`, or
//! into a typed mapping error.  The unverified shell reads the record from the
//! OS and hands it over as an `OsMetadataSnapshot` of booleans and integers.

use vstd::prelude::*;

verus! {

/// Nanoseconds in one second; the `nanos` field of a well-formed timestamp
/// stays below this bound.
pub const NANOS_PER_SEC: u32 = 1_000_000_000;

/// Classification of a filesystem object.  Mutually exclusive and total:
/// every OS entry maps to exactly one variant.
#[derive(Clone, Copy, Debug, PartialEq, Eq, Structural)]
pub enum GqlFileType {
    File,
    Directory,
    Symlink,
    Unsupported,
}

/// A point in time at or after the Unix epoch, split into whole seconds and
/// a nanosecond remainder so that no precision is lost.
#[derive(Clone, Copy, Debug, PartialEq, Eq, Structural)]
pub struct Timestamp {
    pub secs: u64,
    pub nanos: u32,
}

impl Timestamp {
    /// The nanosecond remainder never reaches a full second.
    pub open spec fn wf(self) -> bool {
        self.nanos < NANOS_PER_SEC
    }
}

/// One timestamp as the operating system reported it: a concrete instant at
/// or after the epoch, an instant before the epoch (whose distance the
/// mapping never uses), or no instant at all because the OS call failed.
#[derive(Clone, Copy, Debug, PartialEq, Eq, Structural)]
pub enum OsInstant {
    SinceEpoch { secs: u64, nanos: u32 },
    BeforeEpoch,
    Unavailable,
}

impl OsInstant {
    pub open spec fn wf(self) -> bool {
        self matches OsInstant::SinceEpoch { secs, nanos } ==> nanos < NANOS_PER_SEC
    }
}

/// Plain-value snapshot of one OS metadata record: the file-type bits, the
/// byte length, the read-only permission bit, and the three timestamps.
#[derive(Clone, Copy, Debug, PartialEq, Eq, Structural)]
pub struct OsMetadataSnapshot {
    pub is_dir: bool,
    pub is_file: bool,
    pub is_symlink: bool,
    pub len: u64,
    pub read_only: bool,
    pub modified: OsInstant,
    pub accessed: OsInstant,
    pub created: OsInstant,
}

impl OsMetadataSnapshot {
    pub open spec fn wf(self) -> bool {
        self.modified.wf() && self.accessed.wf() && self.created.wf()
    }
}

/// Normalized metadata: every field is concrete; a record with a missing or
/// unrepresentable field is never built (the mapping fails instead).
#[derive(Clone, Copy, Debug, PartialEq, Eq, Structural)]
pub struct GqlFileMetadata {
    pub file_type: GqlFileType,
    pub size_kb: i32,
    pub read_only: bool,
    pub modified: Timestamp,
    pub accessed: Timestamp,
    pub created: Timestamp,
}

impl GqlFileMetadata {
    pub open spec fn wf(self) -> bool {
        &&& self.size_kb >= 0
        &&& self.modified.wf()
        &&& self.accessed.wf()
        &&& self.created.wf()
    }
}

/// Why one metadata record could not be mapped.  The construction fails
/// closed: no default is ever substituted for the offending field.
#[derive(Clone, Copy, Debug, PartialEq, Eq, Structural)]
pub enum MetadataError {
    /// The kilobyte size would overflow a 32-bit signed integer.
    SizeOverflow,
    /// A timestamp predates the Unix epoch.
    TimestampBeforeEpoch,
    /// The OS could not report a timestamp at all.
    TimestampUnavailable,
}

/// File-type classification as a priority chain: directory first, then
/// regular file, then symlink, then the unsupported default.  The order is
/// the deterministic tie-break if the OS ever reports ambiguous bits.
pub open spec fn spec_classify(is_dir: bool, is_file: bool, is_symlink: bool) -> GqlFileType {
    if is_dir {
        GqlFileType::Directory
    } else if is_file {
        GqlFileType::File
    } else if is_symlink {
        GqlFileType::Symlink
    } else {
        GqlFileType::Unsupported
    }
}

pub fn classify(is_dir: bool, is_file: bool, is_symlink: bool) -> (r: GqlFileType)
    ensures
        r == spec_classify(is_dir, is_file, is_symlink),
{
    if is_dir {
        GqlFileType::Directory
    } else if is_file {
        GqlFileType::File
    } else if is_symlink {
        GqlFileType::Symlink
    } else {
        GqlFileType::Unsupported
    }
}

/// Whether a byte length survives the kilobyte conversion: the floored
/// kilobyte count must fit a 32-bit signed integer.
pub open spec fn size_fits(len: u64) -> bool {
    len / 1024 <= i32::MAX as u64
}

/// One OS timestamp resolved to a concrete `Timestamp`, or the mapping error
/// it forces.
pub open spec fn spec_timestamp_of(inst: OsInstant) -> Result<Timestamp, MetadataError> {
    match inst {
        OsInstant::SinceEpoch { secs, nanos } => Ok(Timestamp { secs, nanos }),
        OsInstant::BeforeEpoch => Err(MetadataError::TimestampBeforeEpoch),
        OsInstant::Unavailable => Err(MetadataError::TimestampUnavailable),
    }
}

/// The whole mapping, as a function of the snapshot alone.  Error precedence:
/// an overflowing size first, then the modified, accessed and created
/// timestamps in that order.
pub open spec fn spec_metadata_of(s: OsMetadataSnapshot) -> Result<
    GqlFileMetadata,
    MetadataError,
> {
    if !size_fits(s.len) {
        Err(MetadataError::SizeOverflow)
    } else {
        match spec_timestamp_of(s.modified) {
            Err(e) => Err(e),
            Ok(modified) => match spec_timestamp_of(s.accessed) {
                Err(e) => Err(e),
                Ok(accessed) => match spec_timestamp_of(s.created) {
                    Err(e) => Err(e),
                    Ok(created) => Ok(
                        GqlFileMetadata {
                            file_type: spec_classify(s.is_dir, s.is_file, s.is_symlink),
                            size_kb: (s.len / 1024) as i32,
                            read_only: s.read_only,
                            modified,
                            accessed,
                            created,
                        },
                    ),
                },
            },
        }
    }
}

fn timestamp_of(inst: OsInstant) -> (r: Result<Timestamp, MetadataError>)
    ensures
        r == spec_timestamp_of(inst),
{
    match inst {
        OsInstant::SinceEpoch { secs, nanos } => Ok(Timestamp { secs, nanos }),
        OsInstant::BeforeEpoch => Err(MetadataError::TimestampBeforeEpoch),
        OsInstant::Unavailable => Err(MetadataError::TimestampUnavailable),
    }
}

/// Maps one OS metadata snapshot to normalized metadata, or to the error
/// that the snapshot forces.  The result is a function of the snapshot alone,
/// so repeated calls on the same snapshot return identical values.
pub fn metadata_of(s: &OsMetadataSnapshot) -> (r: Result<GqlFileMetadata, MetadataError>)
    requires
        s.wf(),
    ensures
        r == spec_metadata_of(*s),
        r matches Ok(m) ==> m.wf(),
{
    let kb = s.len / 1024;
    if kb > i32::MAX as u64 {
        return Err(MetadataError::SizeOverflow);
    }
    let modified = match timestamp_of(s.modified) {
        Ok(t) => t,
        Err(e) => {
            return Err(e);
        },
    };
    let accessed = match timestamp_of(s.accessed) {
        Ok(t) => t,
        Err(e) => {
            return Err(e);
        },
    };
    let created = match timestamp_of(s.created) {
        Ok(t) => t,
        Err(e) => {
            return Err(e);
        },
    };
    Ok(
        GqlFileMetadata {
            file_type: classify(s.is_dir, s.is_file, s.is_symlink),
            size_kb: kb as i32,
            read_only: s.read_only,
            modified,
            accessed,
            created,
        },
    )
}

/// Mapped metadata as it stands on a response item: a mapping that failed —
/// or a metadata read that already failed in the OS, leaving no snapshot —
/// degrades to an absent field rather than voiding the item.
pub open spec fn mapped_metadata(snap: Option<OsMetadataSnapshot>) -> Option<GqlFileMetadata> {
    match snap {
        Some(s) => match spec_metadata_of(s) {
            Ok(m) => Some(m),
            Err(_) => None,
        },
        None => None,
    }
}

/// Maps an optional snapshot for a response item; any failure yields an
/// absent metadata field.
pub fn map_metadata(snap: &Option<OsMetadataSnapshot>) -> (r: Option<GqlFileMetadata>)
    requires
        snap matches Some(s) ==> s.wf(),
    ensures
        r == mapped_metadata(*snap),
{
    match snap {
        Some(s) => match metadata_of(s) {
            Ok(m) => Some(m),
            Err(_) => None,
        },
        None => None,
    }
}

} // verus!
