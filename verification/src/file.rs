//! Single-file responses.  The unverified shell canonicalizes the path,
//! reads the raw bytes and takes a metadata snapshot; this module builds the
//! fully-populated response record from those plain values.

use vstd::prelude::*;

use crate::content::content_encoded;
use crate::content::content_of;
use crate::metadata::map_metadata;
use crate::metadata::mapped_metadata;
use crate::metadata::GqlFileMetadata;
use crate::metadata::OsMetadataSnapshot;
use crate::paths::file_name_of;
use crate::paths::final_component;

verus! {

/// The raw result of a successful file read: the canonicalized path, the
/// file's bytes, and the metadata snapshot — absent where the metadata read
/// failed, the content read having succeeded independently.
#[derive(Debug, PartialEq)]
pub struct RawFileRead {
    pub path: String,
    pub bytes: Vec<u8>,
    pub metadata: Option<OsMetadataSnapshot>,
}

impl RawFileRead {
    pub open spec fn wf(self) -> bool {
        self.metadata matches Some(s) ==> s.wf()
    }
}

/// The response for one file: its canonical path, its file name, its
/// contents — text verbatim, or base64 where the bytes are not valid text —
/// and its normalized metadata, absent only where the metadata read or
/// mapping failed.
#[derive(Debug, PartialEq)]
pub struct GqlFile {
    pub contents: String,
    pub file_name: String,
    pub metadata: Option<GqlFileMetadata>,
    pub path: String,
}

/// How a file response relates to the raw read it was built from.
pub open spec fn file_built(raw: RawFileRead, f: GqlFile) -> bool {
    &&& f.path@ == raw.path@
    &&& (final_component(raw.path@).len() > 0 ==> f.file_name@ == final_component(raw.path@))
    &&& (final_component(raw.path@).len() == 0 ==> f.file_name@ == "Unknown"@)
    &&& content_encoded(raw.bytes@, f.contents@)
    &&& f.metadata == mapped_metadata(raw.metadata)
}

impl GqlFile {
    /// Builds the file response from a raw read.  The path is kept verbatim;
    /// the file name is the path's final component, with a fixed placeholder
    /// where the path has none; the contents follow the two-branch encoding
    /// policy; a failed metadata read or mapping leaves the metadata absent.
    pub fn new(raw: RawFileRead) -> (r: GqlFile)
        requires
            raw.wf(),
        ensures
            file_built(raw, r),
    {
        let file_name = match file_name_of(raw.path.as_str()) {
            Some(name) => name,
            None => "Unknown".to_owned(),
        };
        let contents = content_of(&raw.bytes);
        let metadata = map_metadata(&raw.metadata);
        GqlFile { contents, file_name, metadata, path: raw.path }
    }
}

} // verus!
