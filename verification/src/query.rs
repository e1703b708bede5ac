//! The operations the library is consumed through.  Each takes the raw
//! outcome of the one OS operation the unverified shell performed — already
//! as plain values — and produces either the structured response or the
//! single top-level error that the failure calls for.

use vstd::prelude::*;

use crate::dirent::entry_wrapped;
use crate::dirent::wrap_entries;
use crate::dirent::GqlDirentDTO;
use crate::dirent::RawEntryOutcome;
use crate::errors::directory_error;
use crate::errors::directory_error_message;
use crate::errors::file_error;
use crate::errors::file_error_message;
use crate::errors::home_error;
use crate::errors::GqlError;
use crate::errors::GqlErrorKind;
use crate::file::file_built;
use crate::file::GqlFile;
use crate::file::RawFileRead;

verus! {

/// Liveness probe response.
#[derive(Debug, PartialEq)]
pub struct Ping {
    pub pong: String,
}

pub struct QueryRoot;

impl QueryRoot {
    /// The liveness probe always succeeds with the fixed reply.
    pub fn ping() -> (r: Ping)
        ensures
            r.pong@ == "Pong!"@,
    {
        Ping { pong: "Pong!".to_owned() }
    }

    /// Wraps a directory listing.  A listing that started yields exactly one
    /// tagged item per enumerated outcome, in enumeration order; one that
    /// could not start yields the single top-level directory error around
    /// the OS text.
    pub fn read_dir(listing: &Result<Vec<RawEntryOutcome>, String>) -> (r: Result<
        Vec<GqlDirentDTO>,
        GqlError,
    >)
        requires
            listing matches Ok(v) ==> forall|i: int|
                0 <= i < v@.len() ==> (#[trigger] v@[i]).wf(),
        ensures
            listing matches Ok(v) ==> (r matches Ok(dtos) && dtos@.len() == v@.len() && (forall|
                i: int,
            |
                0 <= i < v@.len() ==> entry_wrapped(v@[i], #[trigger] dtos@[i]))),
            listing matches Err(os) ==> (r matches Err(e) && e.kind
                == GqlErrorKind::DirectoryNotFound && e.message@ == directory_error_message(os@)),
    {
        match listing {
            Ok(outcomes) => Ok(wrap_entries(outcomes)),
            Err(os) => Err(directory_error(os.as_str())),
        }
    }

    /// Wraps a file read.  A read that completed yields the structured file
    /// response; one that failed — the path did not canonicalize, or the
    /// bytes could not be read — yields the single top-level file error
    /// around the OS text.
    pub fn read_file(outcome: Result<RawFileRead, String>) -> (r: Result<GqlFile, GqlError>)
        requires
            outcome matches Ok(raw) ==> raw.wf(),
        ensures
            outcome matches Ok(raw) ==> (r matches Ok(f) && file_built(raw, f)),
            outcome matches Err(os) ==> (r matches Err(e) && e.kind == GqlErrorKind::FileNotFound
                && e.message@ == file_error_message(os@)),
    {
        match outcome {
            Ok(raw) => Ok(GqlFile::new(raw)),
            Err(os) => Err(file_error(os.as_str())),
        }
    }

    /// Resolves the home listing's starting point.  A located home directory
    /// passes through unchanged for the shell to enumerate; a missing one is
    /// the fixed top-level directory error.
    pub fn read_home(home: Option<String>) -> (r: Result<String, GqlError>)
        ensures
            home matches Some(dir) ==> (r matches Ok(p) && p@ == dir@),
            home is None ==> (r matches Err(e) && e.kind == GqlErrorKind::DirectoryNotFound
                && e.message@ == "Could not retrieve home directory."@),
    {
        match home {
            Some(dir) => Ok(dir),
            None => Err(home_error()),
        }
    }
}

} // verus!
