//! Paths inside the cloud-synced document folder.
//!
//! Every command that touches the folder resolves it the same way: the
//! environment-provided home directory followed by a fixed relative path.

use vstd::prelude::*;
use vstd::string::StringExecFns;

verus! {

/// The fixed path of the cloud-sync directory, relative to the home directory.
pub open spec fn container_suffix() -> Seq<char> {
    "/Library/Mobile Documents/iCloud~com~zfsdev/Documents"@
}

/// The cloud-sync directory resolved from a home directory path.
pub open spec fn container_dir(home: Seq<char>) -> Seq<char> {
    home + container_suffix()
}

/// The full path of the named document inside the cloud-sync directory.
pub open spec fn document_path(home: Seq<char>, name: Seq<char>) -> Seq<char> {
    container_dir(home) + "/"@ + name
}

/// Builds the cloud-sync directory path for the given home directory.
pub fn container_dir_for(home: &str) -> (r: String)
    ensures
        r@ == container_dir(home@),
{
    let mut r = home.to_owned();
    r.append("/Library/Mobile Documents/iCloud~com~zfsdev/Documents");
    r
}

/// Builds the full path of the named document for the given home directory.
pub fn document_path_for(home: &str, name: &str) -> (r: String)
    ensures
        r@ == document_path(home@, name@),
{
    let mut r = container_dir_for(home);
    r.append("/");
    r.append(name);
    r
}

} // verus!
