//! Snapshot lifecycle operations.
use vstd::prelude::*;

use crate::backend::Backend;
use crate::error::Result;
use crate::types::{SnapshotHandle, SnapshotInfo, SnapshotRequest, VolumeRef};

verus! {

/// Create, delete and list provider-managed snapshots.
///
/// A backend may state, in `creation` and `deletion`, which results its operations give
/// for which arguments.
pub trait SnapshotProvider: Backend {
    /// Whether creating a snapshot of `request` may give `r`. A backend that does not
    /// say may give anything.
    open spec fn creation(&self, request: SnapshotRequest, r: Result<SnapshotInfo>) -> bool {
        true
    }

    /// Whether deleting `snapshot` may give `r`. A backend that does not say may give
    /// anything.
    open spec fn deletion(&self, snapshot: SnapshotHandle, r: Result<()>) -> bool {
        true
    }

    fn create_snapshot(&self, request: &SnapshotRequest) -> (r: Result<SnapshotInfo>)
        ensures
            self.creation(*request, r),
    ;

    fn delete_snapshot(&self, snapshot: &SnapshotHandle) -> (r: Result<()>)
        ensures
            self.deletion(*snapshot, r),
    ;

    fn list_snapshots(&self, source: &VolumeRef) -> Result<Vec<SnapshotInfo>>;
}

} // verus!
