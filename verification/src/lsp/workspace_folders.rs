//! The folders of a workspace.

use vstd::prelude::*;
use crate::uri::Uri;

verus! {

/// A folder of a workspace: its URI and the name that the user interface
/// shows for it.
#[derive(Debug, Clone, PartialEq, Eq, PartialOrd, Ord)]
pub struct WorkspaceFolder {
    /// The associated URI for this workspace folder.
    pub uri: Uri,
    /// The name of the workspace folder.
    pub name: String,
}

} // verus!
