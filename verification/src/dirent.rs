//! Directory listing responses.  Each enumerated entry arrives from the
//! unverified shell as a plain-value outcome — the entry's paths plus an
//! optional metadata snapshot, or the OS error text where enumeration of
//! that one item failed — and is wrapped into a tagged per-item result, so
//! that a single failing item never voids the batch.

use vstd::prelude::*;

use crate::metadata::map_metadata;
use crate::metadata::mapped_metadata;
use crate::metadata::GqlFileMetadata;
use crate::metadata::OsMetadataSnapshot;

verus! {

/// One successfully enumerated entry, as the OS reported it: the joined
/// path, the final name, and the metadata snapshot — absent where the
/// metadata read for this one entry failed.
#[derive(Debug, PartialEq)]
pub struct RawDirEntry {
    pub path: String,
    pub file_name: String,
    pub metadata: Option<OsMetadataSnapshot>,
}

impl RawDirEntry {
    /// The OS never enumerates an entry without a name, and a snapshot's
    /// nanosecond parts stay below one second.
    pub open spec fn wf(self) -> bool {
        &&& self.file_name@.len() > 0
        &&& self.metadata matches Some(s) ==> s.wf()
    }
}

/// The raw outcome of enumerating one directory item: an entry, or the OS
/// error text where that single item could not be enumerated.
#[derive(Debug, PartialEq)]
pub enum RawEntryOutcome {
    Entry(RawDirEntry),
    Error(String),
}

impl RawEntryOutcome {
    pub open spec fn wf(self) -> bool {
        self matches RawEntryOutcome::Entry(e) ==> e.wf()
    }
}

/// One item of a directory listing: the entry's path, its file name, and its
/// normalized metadata — absent only where the metadata read or mapping for
/// this entry failed, the entry itself still being present.
#[derive(Debug, PartialEq)]
pub struct GqlDirent {
    pub path: String,
    pub metadata: Option<GqlFileMetadata>,
    pub file_name: String,
}

/// Tagged per-item result: exactly one of `data` and `error` is populated,
/// so one unreadable item stays visible inside an otherwise good listing.
#[derive(Debug, PartialEq)]
pub struct GqlDirentDTO {
    pub data: Option<GqlDirent>,
    pub error: Option<String>,
}

impl GqlDirentDTO {
    /// Exactly one side is populated.
    pub open spec fn wf(self) -> bool {
        self.data is Some <==> self.error is None
    }
}

/// How a wrapped entry relates to its raw outcome: an enumerated entry keeps
/// its paths and carries its mapped metadata; a failed enumeration becomes
/// the error side, holding the OS text.
pub open spec fn entry_wrapped(outcome: RawEntryOutcome, dto: GqlDirentDTO) -> bool {
    match outcome {
        RawEntryOutcome::Entry(raw) => {
            &&& dto.error is None
            &&& dto.data matches Some(d) && d.path@ == raw.path@ && d.file_name@ == raw.file_name@
                && d.metadata == mapped_metadata(raw.metadata)
        },
        RawEntryOutcome::Error(msg) => {
            &&& dto.data is None
            &&& dto.error matches Some(m) && m@ == msg@
        },
    }
}

impl GqlDirentDTO {
    /// Wraps the outcome of one enumerated item.
    pub fn from_raw(outcome: &RawEntryOutcome) -> (r: GqlDirentDTO)
        requires
            outcome.wf(),
        ensures
            entry_wrapped(*outcome, r),
            r.wf(),
    {
        match outcome {
            RawEntryOutcome::Entry(raw) => {
                let metadata = map_metadata(&raw.metadata);
                GqlDirentDTO {
                    data: Some(
                        GqlDirent {
                            path: raw.path.clone(),
                            metadata,
                            file_name: raw.file_name.clone(),
                        },
                    ),
                    error: None,
                }
            },
            RawEntryOutcome::Error(msg) => GqlDirentDTO { data: None, error: Some(msg.clone()) },
        }
    }
}

/// Wraps a whole listing item by item.  The result has exactly one tagged
/// item per raw outcome, in enumeration order: a failing item is wrapped,
/// never dropped, and never aborts the rest of the batch.
pub fn wrap_entries(outcomes: &Vec<RawEntryOutcome>) -> (r: Vec<GqlDirentDTO>)
    requires
        forall|i: int| 0 <= i < outcomes@.len() ==> (#[trigger] outcomes@[i]).wf(),
    ensures
        r@.len() == outcomes@.len(),
        forall|i: int| 0 <= i < outcomes@.len() ==> entry_wrapped(
            outcomes@[i],
            #[trigger] r@[i],
        ),
        forall|i: int| 0 <= i < outcomes@.len() ==> (#[trigger] r@[i]).wf(),
{
    let mut r: Vec<GqlDirentDTO> = Vec::new();
    let n = outcomes.len();
    let mut i: usize = 0;
    while i < n
        invariant
            i <= n,
            n == outcomes@.len(),
            r@.len() == i,
            forall|k: int| 0 <= k < outcomes@.len() ==> (#[trigger] outcomes@[k]).wf(),
            forall|k: int| 0 <= k < i ==> entry_wrapped(outcomes@[k], #[trigger] r@[k]),
            forall|k: int| 0 <= k < i ==> (#[trigger] r@[k]).wf(),
        decreases n - i,
    {
        let dto = GqlDirentDTO::from_raw(&outcomes[i]);
        r.push(dto);
        i = i + 1;
    }
    r
}

} // verus!
