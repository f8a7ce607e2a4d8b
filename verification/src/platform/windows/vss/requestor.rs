//! The VSS requestor: checks each request, then hands the work to the shadow-copy tools,
//! which the caller runs.
use vstd::prelude::*;

use super::ffi::{RawSnapshotSet, initialize_requestor};
use super::session::VssSession;
use super::{BACKEND_NAME, VssSnapshotSpec, VssTimeouts};
use crate::error::{Error, Fault, Result, fault};
use crate::text::{chars_of, trim, trim_bounds};
use crate::types::{SnapshotHandle, SnapshotInfo, VolumeRef};

verus! {

#[derive(Debug)]
pub struct VssRequestor {
    timeouts: VssTimeouts,
}

/// Whether a string is blank once trimmed.
fn is_blank(s: &str) -> (r: bool)
    ensures
        r == (trim(s@).len() == 0),
{
    let v = chars_of(s);
    let (a, b) = trim_bounds(v.as_slice());
    a == b
}

impl VssRequestor {
    /// The timeouts the requestor was set up with.
    pub closed spec fn limits(&self) -> VssTimeouts {
        self.timeouts
    }

    /// Set the requestor up. `init` tries the COM layer; whatever it answers, the
    /// command-line tools need no set-up, so the requestor is ready.
    pub fn initialize<F>(timeouts: VssTimeouts, init: F) -> (r: Result<Self>)
        where
            F: FnOnce() -> Result<()>,
        requires
            init.requires(()),
        ensures
            r matches Ok(q) && q.limits() == timeouts,
    {
        let com = init();
        initialize_requestor(com)?;
        Ok(VssRequestor { timeouts })
    }

    /// Start a session on the snapshot set that `create` makes for the spec.
    pub fn start_session<F>(&self, spec: VssSnapshotSpec, create: F) -> (r: Result<VssSession>)
        where
            F: FnOnce(&VssSnapshotSpec, VssTimeouts) -> Result<RawSnapshotSet>,
        requires
            create.requires((&spec, self.limits())),
        ensures
            exists|c: Result<RawSnapshotSet>|
                #![trigger create.ensures((&spec, self.limits()), c)]
                create.ensures((&spec, self.limits()), c) && match c {
                    Ok(raw) => r matches Ok(s) && s.started_spec() == spec && s.limits()
                        == self.limits() && s.snapshot_set() == raw,
                    Err(e) => r matches Err(f) && f == e,
                },
    {
        let created = create(&spec, self.timeouts);
        match created {
            Ok(raw) => Ok(VssSession::new(spec, self.timeouts, raw)),
            Err(e) => Err(e),
        }
    }

    /// Delete a snapshot with `delete`, which is handed the snapshot's id; a blank id
    /// is refused before anything runs.
    pub fn delete_snapshot<F>(&self, snapshot: &SnapshotHandle, delete: F) -> (r: Result<()>)
        where
            F: FnOnce(&str) -> Result<()>,
        requires
            forall|s: &str| #[trigger] delete.requires((s,)),
        ensures
            trim(snapshot.id@).len() == 0 ==> (r matches Err(e) && fault(e)
                == (Fault::InvalidArgument { message: "snapshot id must not be empty"@ })),
            trim(snapshot.id@).len() > 0 ==> exists|s: &str|
                #![trigger delete.ensures((s,), r)]
                s@ == snapshot.id@ && delete.ensures((s,), r),
    {
        if is_blank(snapshot.id.as_str()) {
            return Err(
                Error::InvalidArgument {
                    message: String::from_str("snapshot id must not be empty"),
                },
            );
        }
        delete(snapshot.id.as_str())
    }

    /// List the snapshots of a volume with `list`, which is handed the volume and the
    /// backend's name; a blank volume id is refused before anything runs.
    pub fn list_snapshots<F>(&self, source: &VolumeRef, list: F) -> (r: Result<Vec<SnapshotInfo>>)
        where
            F: FnOnce(&VolumeRef, &'static str) -> Result<Vec<SnapshotInfo>>,
        requires
            list.requires((source, BACKEND_NAME)),
        ensures
            trim(source.id@).len() == 0 ==> (r matches Err(e) && fault(e)
                == (Fault::InvalidVolume { volume: source.id@ })),
            trim(source.id@).len() > 0 ==> list.ensures((source, BACKEND_NAME), r),
    {
        if is_blank(source.id.as_str()) {
            return Err(Error::InvalidVolume { volume: source.id.clone() });
        }
        list(source, BACKEND_NAME)
    }
}

} // verus!
