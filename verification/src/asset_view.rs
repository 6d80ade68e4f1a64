//! The two views of the asset manager tab.

use vstd::prelude::*;

verus! {

/// Which of the tab's two views is showing.
#[derive(Debug, Clone, Copy, PartialEq, Eq, Structural)]
pub enum View {
    /// Everything that was uploaded.
    Library,
    /// Files staged for upload.
    ImportQueue,
}

} // verus!
