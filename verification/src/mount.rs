//! Snapshot mounting.
use vstd::prelude::*;

use crate::backend::Backend;
use crate::error::Result;
use crate::types::{MountHandle, MountRequest};

verus! {

/// Mount and unmount snapshots for browsing or copy-mount workflows.
///
/// A backend may state, in `mounting` and `unmounting`, which results its operations give
/// for which arguments.
///
/// # Errors
///
/// - [`Error::UnsupportedOperation`](crate::error::Error::UnsupportedOperation) if the backend
///   does not support mounting.
pub trait MountManager: Backend {
    /// Whether mounting as `request` asks may give `r`. A backend that does not say may
    /// give anything.
    open spec fn mounting(&self, request: MountRequest, r: Result<MountHandle>) -> bool {
        true
    }

    /// Whether unmounting `handle` may give `r`. A backend that does not say may give
    /// anything.
    open spec fn unmounting(&self, handle: MountHandle, r: Result<()>) -> bool {
        true
    }

    /// Mount an existing snapshot at the requested location.
    fn mount_snapshot(&self, request: &MountRequest) -> (r: Result<MountHandle>)
        ensures
            self.mounting(*request, r),
    ;

    /// Unmount a previously mounted snapshot.
    fn unmount(&self, handle: &MountHandle) -> (r: Result<()>)
        ensures
            self.unmounting(*handle, r),
    ;
}

} // verus!
