//! The snapshot set that the VSS command-line tools create, and the steps that finish it.
use vstd::prelude::*;

use super::{VssSnapshotSpec, VssTimeouts};
use crate::error::Result;
use crate::types::{SnapshotInfo, VolumeRef};

pub mod cli;
pub mod com;

verus! {

/// Snapshot set result shared between COM and CLI backends.
#[derive(Debug, Clone)]
pub struct RawSnapshotSet {
    pub snapshot_set_id: String,
    pub snapshot_id: String,
    pub device_path: String,
}

/// Create the snapshot set of a spec with `create`, the command-line route, which is
/// handed the id of the volume to snapshot.
pub fn create_snapshot_set<F>(spec: &VssSnapshotSpec, _timeouts: VssTimeouts, create: F) -> (r:
    Result<RawSnapshotSet>)
    where
        F: FnOnce(&str) -> Result<RawSnapshotSet>,
    requires
        forall|s: &str| #[trigger] create.requires((s,)),
    ensures
        exists|s: &str|
            #![trigger create.ensures((s,), r)]
            s@ == spec.request.source.id@ && create.ensures((s,), r),
{
    create(spec.request.source.id.as_str())
}

/// Committing a snapshot set: nothing is left to do once the tool has created it.
pub fn commit_snapshot_set(raw: &mut RawSnapshotSet, _timeouts: VssTimeouts) -> (r: Result<()>)
    ensures
        r is Ok,
        *final(raw) == *old(raw),
{
    Ok(())
}

/// Aborting a snapshot set: nothing is left to undo.
pub fn abort_snapshot_set(raw: &mut RawSnapshotSet) -> (r: Result<()>)
    ensures
        r is Ok,
        *final(raw) == *old(raw),
{
    Ok(())
}

/// Delete a snapshot: `com`, the coordinator route, is tried first; when it fails,
/// `cli`, the command-line route, answers. Both are handed the snapshot's id.
pub fn delete_snapshot<C, L>(snapshot_id: &str, com: C, cli: L) -> (r: Result<()>)
    where
        C: FnOnce(&str) -> Result<()>,
        L: FnOnce(&str) -> Result<()>,
    requires
        com.requires((snapshot_id,)),
        cli.requires((snapshot_id,)),
    ensures
        (exists|c: Result<()>|
            #![trigger com.ensures((snapshot_id,), c)]
            com.ensures((snapshot_id,), c) && match c {
                Ok(()) => r is Ok,
                Err(_) => cli.ensures((snapshot_id,), r),
            }),
{
    match com(snapshot_id) {
        Ok(()) => Ok(()),
        Err(_) => cli(snapshot_id),
    }
}

/// List the snapshots of a volume with `list`, the command-line route, which is handed
/// the volume and the backend's name.
pub fn list_snapshots<F>(source: &VolumeRef, backend: &'static str, list: F) -> (r: Result<Vec<SnapshotInfo>>)
    where
        F: FnOnce(&VolumeRef, &'static str) -> Result<Vec<SnapshotInfo>>,
    requires
        list.requires((source, backend)),
    ensures
        list.ensures((source, backend), r),
{
    list(source, backend)
}

/// The device path of a snapshot, as `lookup`, the command-line route, finds it for the
/// snapshot's id.
pub fn get_snapshot_device_path<F>(snapshot_id: &str, lookup: F) -> (r: Result<String>)
    where
        F: FnOnce(&str) -> Result<String>,
    requires
        lookup.requires((snapshot_id,)),
    ensures
        lookup.ensures((snapshot_id,), r),
{
    lookup(snapshot_id)
}

/// Set the requestor up once the COM layer was tried: when COM is unavailable the
/// command-line tools take over, and they need no set-up.
pub fn initialize_requestor(com: Result<()>) -> (r: Result<()>)
    ensures
        r is Ok,
{
    match com {
        Ok(()) => Ok(()),
        Err(_) => cli::initialize(),
    }
}

} // verus!
