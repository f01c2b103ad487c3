//! Hardcoded configuration of the updater: the download address, the version
//! number attached to the installer artifact, and the prefix of the scoped
//! temporary directory.

use vstd::prelude::*;

verus! {

/// Version number associated with the installer artifact. It is recorded
/// configuration only: the download address spells the same number out and
/// nothing else consults it.
pub const INSTALLER_VERSION: u64 = 236;

/// Address the download routine fetches the installer from.
pub fn download_url() -> (url: &'static str)
    ensures
        url@ == "https://dkratzert.de/files/dsr/DSR-setup-236.exe"@,
{
    "https://dkratzert.de/files/dsr/DSR-setup-236.exe"
}

/// Prefix of the uniquely named temporary directory that holds the
/// downloaded file until the download routine's scope ends.
pub fn temp_dir_prefix() -> (prefix: &'static str)
    ensures
        prefix@ == "update-file"@,
{
    "update-file"
}

} // verus!
