//! The download routine's data: its two error kinds, and the plan that
//! fixes the destination file name and the exact bytes written there.

use vstd::prelude::*;
use crate::naming;

verus! {

/// Which collaborator failed during the download.
#[derive(Clone, Copy, Debug, PartialEq, Eq, Structural)]
pub enum DownloadErrorKind {
    /// The file system: creating the temporary directory or the destination
    /// file, or writing into it.
    Io,
    /// The transport: issuing the request or reading the response.
    Http,
}

/// A failed download: the failing collaborator, and the display text of the
/// underlying cause, kept for the report.
#[derive(Debug, PartialEq)]
pub struct DownloadError {
    pub kind: DownloadErrorKind,
    pub message: Vec<u8>,
}

/// Where a successful response goes: the destination file name inside the
/// scoped temporary directory, and the exact bytes to write there.
#[derive(Debug, PartialEq)]
pub struct DownloadPlan {
    pub file_name: Vec<u8>,
    pub contents: Vec<u8>,
}

/// Fix the destination of a successful response: the file name is derived
/// from the resolved path, and the response body is carried over to the
/// destination unchanged, byte for byte.
pub fn plan_download(resolved_path: &Vec<u8>, body: Vec<u8>) -> (plan: DownloadPlan)
    ensures
        plan.file_name@ == naming::derived_file_name(resolved_path@),
        plan.contents@ == body@,
{
    DownloadPlan { file_name: naming::derive_file_name(resolved_path), contents: body }
}

} // verus!
