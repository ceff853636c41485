//! Answers of the store that the core interprets.
use vstd::prelude::*;

verus! {

/// Status of deleting result.
#[derive(Debug, Clone, Copy, PartialEq, Eq, Structural)]
pub enum DeleteStatus {
    /// Record successfully deleted.
    Deleted(u32),
    /// Record already missing.
    Missing,
}

impl DeleteStatus {
    /// The status for a store that reports `removed` deleted records.
    pub fn from_count(removed: u32) -> (r: DeleteStatus)
        ensures
            removed > 0 ==> r == DeleteStatus::Deleted(removed),
            removed == 0 ==> r == DeleteStatus::Missing,
    {
        if removed > 0 {
            DeleteStatus::Deleted(removed)
        } else {
            DeleteStatus::Missing
        }
    }
}

} // verus!
