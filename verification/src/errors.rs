//! Top-level errors: a failure of the whole requested operation (as opposed
//! to one item of a batch).  Each carries a fixed classification and a
//! human-readable message built around the OS error text.

use vstd::prelude::*;
use vstd::string::StringExecFns;

verus! {

/// The fixed classification of a whole-operation failure.
#[derive(Clone, Copy, Debug, PartialEq, Eq, Structural)]
pub enum GqlErrorKind {
    DirectoryNotFound,
    FileNotFound,
}

/// A whole-operation failure: the classification plus the message shown to
/// the caller.
#[derive(Debug, PartialEq, Eq)]
pub struct GqlError {
    pub kind: GqlErrorKind,
    pub message: String,
}

impl GqlError {
    /// The classification as the fixed text that responses carry.
    pub fn kind_text(&self) -> (r: String)
        ensures
            self.kind == GqlErrorKind::DirectoryNotFound ==> r@ == "Directory not found"@,
            self.kind == GqlErrorKind::FileNotFound ==> r@ == "File not found"@,
    {
        match self.kind {
            GqlErrorKind::DirectoryNotFound => "Directory not found".to_owned(),
            GqlErrorKind::FileNotFound => "File not found".to_owned(),
        }
    }
}

/// The message of a failed directory listing, around the OS error text.
pub open spec fn directory_error_message(os_error: Seq<char>) -> Seq<char> {
    "Could not retrieve directory: "@ + os_error + "."@
}

/// The message of a failed file read, around the OS error text.
pub open spec fn file_error_message(os_error: Seq<char>) -> Seq<char> {
    "Could not retrieve file: "@ + os_error + "."@
}

/// The whole-operation error for a directory listing that could not start.
pub fn directory_error(os_error: &str) -> (r: GqlError)
    ensures
        r.kind == GqlErrorKind::DirectoryNotFound,
        r.message@ == directory_error_message(os_error@),
{
    let message = "Could not retrieve directory: ".to_owned().concat(os_error).concat(".");
    GqlError { kind: GqlErrorKind::DirectoryNotFound, message }
}

/// The whole-operation error for a file read that could not complete.
pub fn file_error(os_error: &str) -> (r: GqlError)
    ensures
        r.kind == GqlErrorKind::FileNotFound,
        r.message@ == file_error_message(os_error@),
{
    let message = "Could not retrieve file: ".to_owned().concat(os_error).concat(".");
    GqlError { kind: GqlErrorKind::FileNotFound, message }
}

/// The whole-operation error for a home directory that could not be located.
pub fn home_error() -> (r: GqlError)
    ensures
        r.kind == GqlErrorKind::DirectoryNotFound,
        r.message@ == "Could not retrieve home directory."@,
{
    GqlError {
        kind: GqlErrorKind::DirectoryNotFound,
        message: "Could not retrieve home directory.".to_owned(),
    }
}

} // verus!
