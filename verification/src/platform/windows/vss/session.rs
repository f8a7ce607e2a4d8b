//! A started VSS snapshot set, and the two ways it ends: committed into a snapshot, or
//! aborted.
use vstd::prelude::*;

use super::ffi::{RawSnapshotSet, abort_snapshot_set, commit_snapshot_set};
use super::{BACKEND_NAME, SnapshotContext, VssSnapshotSpec, VssTimeouts};
use crate::error::Result;
use crate::types::{SnapshotHandle, SnapshotInfo};

verus! {

#[derive(Debug)]
pub struct VssSession {
    spec: VssSnapshotSpec,
    timeouts: VssTimeouts,
    raw: RawSnapshotSet,
}

/// The snapshot a committed session reports: its id, the requested source, and the
/// device path when the tools reported one.
pub open spec fn committed_info(spec: VssSnapshotSpec, raw: RawSnapshotSet) -> SnapshotInfo {
    SnapshotInfo {
        handle: SnapshotHandle { id: raw.snapshot_id, source: Some(spec.request.source) },
        backend: BACKEND_NAME,
        path_hint: if raw.device_path@.len() > 0 {
            Some(raw.device_path)
        } else {
            None
        },
        read_only: spec.request.read_only,
    }
}

impl VssSession {
    /// The snapshot spec the session was started with.
    pub closed spec fn started_spec(&self) -> VssSnapshotSpec {
        self.spec
    }

    /// The timeouts of the session.
    pub closed spec fn limits(&self) -> VssTimeouts {
        self.timeouts
    }

    /// The snapshot set the tools created.
    pub closed spec fn snapshot_set(&self) -> RawSnapshotSet {
        self.raw
    }

    pub(crate) fn new(spec: VssSnapshotSpec, timeouts: VssTimeouts, raw: RawSnapshotSet) -> (r:
        Self)
        ensures
            r.started_spec() == spec,
            r.limits() == timeouts,
            r.snapshot_set() == raw,
    {
        VssSession { spec, timeouts, raw }
    }

    pub fn snapshot_set_id(&self) -> (r: &str)
        ensures
            r@ == self.snapshot_set().snapshot_set_id@,
    {
        self.raw.snapshot_set_id.as_str()
    }

    pub fn context(&self) -> (r: SnapshotContext)
        ensures
            r == self.started_spec().context,
    {
        self.spec.context
    }

    /// Commit the set and report the snapshot it holds.
    pub fn create_snapshot(self) -> (r: Result<SnapshotInfo>)
        ensures
            r matches Ok(info) && info@ == committed_info(self.started_spec(), self.snapshot_set())@,
    {
        let mut session = self;
        let timeouts = session.timeouts;
        commit_snapshot_set(&mut session.raw, timeouts)?;
        let path_hint = if !session.raw.device_path.as_str().is_empty() {
            Some(session.raw.device_path.clone())
        } else {
            None
        };
        Ok(
            SnapshotInfo {
                handle: SnapshotHandle {
                    id: session.raw.snapshot_id.clone(),
                    source: Some(session.spec.request.source),
                },
                backend: BACKEND_NAME,
                path_hint,
                read_only: session.spec.request.read_only,
            },
        )
    }

    /// Give the set up.
    pub fn abort(self) -> (r: Result<()>)
        ensures
            r is Ok,
    {
        let mut session = self;
        abort_snapshot_set(&mut session.raw)
    }
}

} // verus!
