//! What a look at one path on disk found.

use vstd::prelude::*;

verus! {

/// The answers of the filesystem about one path, taken at one moment.
#[derive(Clone, Copy, Debug, PartialEq, Eq, Structural)]
pub struct PathStatus {
    /// Something is there under this path.
    pub exists: bool,
    /// What is there is a regular file.
    pub regular_file: bool,
    /// What is there is a directory.
    pub directory: bool,
}

impl PathStatus {
    /// The status of a path under which nothing was found.
    pub fn missing() -> (status: PathStatus)
        ensures
            status == (PathStatus { exists: false, regular_file: false, directory: false }),
    {
        PathStatus { exists: false, regular_file: false, directory: false }
    }

    /// Whether the path counts as an existing regular file.
    pub open spec fn spec_is_file(&self) -> bool {
        self.exists && self.regular_file
    }

    /// Whether the path counts as an existing directory.
    pub open spec fn spec_is_dir(&self) -> bool {
        self.exists && self.directory
    }
}

/// Checks that the path exists and is a regular file.
pub fn is_file(status: &PathStatus) -> (found: bool)
    ensures
        found == status.spec_is_file(),
{
    status.exists && status.regular_file
}

/// Checks that the path exists and is a directory.
pub fn is_dir(status: &PathStatus) -> (found: bool)
    ensures
        found == status.spec_is_dir(),
{
    status.exists && status.directory
}

} // verus!
