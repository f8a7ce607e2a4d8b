//! macOS: a backend that reports APFS capabilities and supports no operation yet.
use vstd::prelude::*;

use crate::backend::Backend;
use crate::backup::BackupExecutor;
use crate::error::{Fault, Result, fault};
use crate::mount::MountManager;
use crate::platform::StubBackend;
use crate::restore::RestorePlanner;
use crate::snapshot::SnapshotProvider;
use crate::types::{
    BackupPlan, Capability, MountHandle, MountRequest, RestorePlan, SnapshotHandle, SnapshotInfo,
    SnapshotRequest, VolumeRef,
};

verus! {

/// The capabilities of the macOS backend.
pub open spec fn macos_capabilities_spec() -> Seq<Capability> {
    seq![
        Capability::CrashConsistentSnapshot,
        Capability::BlockLevelBackup,
        Capability::BlockLevelRestore,
        Capability::DirectDeviceAccess,
    ]
}

fn macos_capabilities() -> (r: &'static [Capability])
    ensures
        r@ == macos_capabilities_spec(),
{
    &[
        Capability::CrashConsistentSnapshot,
        Capability::BlockLevelBackup,
        Capability::BlockLevelRestore,
        Capability::DirectDeviceAccess,
    ]
}

#[derive(Debug, Clone)]
pub struct MacOsBackend(StubBackend);

impl MacOsBackend {
    /// The stub this backend answers with.
    pub closed spec fn stub(&self) -> StubBackend {
        self.0
    }

    pub fn new() -> (r: Self)
        ensures
            r.stub().name()@ == "macos-apfs"@,
            r.stub().caps()@ == macos_capabilities_spec(),
    {
        MacOsBackend(StubBackend::new("macos-apfs", macos_capabilities()))
    }

    pub fn backend_name(&self) -> (r: &'static str)
        ensures
            r == self.stub().name(),
    {
        self.0.backend_name()
    }
}

impl Default for MacOsBackend {
    fn default() -> (r: Self)
        ensures
            r.stub().name()@ == "macos-apfs"@,
            r.stub().caps()@ == macos_capabilities_spec(),
    {
        MacOsBackend::new()
    }
}

impl Backend for MacOsBackend {
    open spec fn capability_set(&self) -> Seq<Capability> {
        self.stub().caps()@
    }

    fn backend_name(&self) -> (r: &'static str)
        ensures
            r == self.stub().name(),
    {
        self.0.backend_name()
    }

    fn capabilities(&self) -> (r: &'static [Capability])
        ensures
            r == self.stub().caps(),
    {
        self.0.capabilities()
    }
}

/// The refusal of `operation` by this backend.
pub open spec fn refused(b: MacOsBackend, operation: Seq<char>) -> Fault {
    Fault::UnsupportedOperation { operation, backend: b.stub().name()@ }
}

impl SnapshotProvider for MacOsBackend {
    open spec fn creation(&self, request: SnapshotRequest, r: Result<SnapshotInfo>) -> bool {
        r is Err && fault(r->Err_0) == refused(*self, "create_snapshot"@)
    }

    open spec fn deletion(&self, snapshot: SnapshotHandle, r: Result<()>) -> bool {
        r is Err && fault(r->Err_0) == refused(*self, "delete_snapshot"@)
    }

    fn create_snapshot(&self, request: &SnapshotRequest) -> (r: Result<SnapshotInfo>)
        ensures
            r is Err && fault(r->Err_0) == refused(*self, "create_snapshot"@),
    {
        self.0.create_snapshot(request)
    }

    fn delete_snapshot(&self, snapshot: &SnapshotHandle) -> (r: Result<()>)
        ensures
            r is Err && fault(r->Err_0) == refused(*self, "delete_snapshot"@),
    {
        self.0.delete_snapshot(snapshot)
    }

    fn list_snapshots(&self, source: &VolumeRef) -> (r: Result<Vec<SnapshotInfo>>)
        ensures
            r is Err && fault(r->Err_0) == refused(*self, "list_snapshots"@),
    {
        self.0.list_snapshots(source)
    }
}

impl BackupExecutor for MacOsBackend {
    fn backup_volume(&self, plan: &BackupPlan) -> (r: Result<()>)
        ensures
            r is Err && fault(r->Err_0) == refused(*self, "backup_volume"@),
    {
        self.0.backup_volume(plan)
    }
}

impl RestorePlanner for MacOsBackend {
    fn restore_volume(&self, plan: &RestorePlan) -> (r: Result<()>)
        ensures
            r is Err && fault(r->Err_0) == refused(*self, "restore_volume"@),
    {
        self.0.restore_volume(plan)
    }
}

impl MountManager for MacOsBackend {
    open spec fn mounting(&self, request: MountRequest, r: Result<MountHandle>) -> bool {
        r is Err && fault(r->Err_0) == refused(*self, "mount_snapshot"@)
    }

    open spec fn unmounting(&self, handle: MountHandle, r: Result<()>) -> bool {
        r is Err && fault(r->Err_0) == refused(*self, "unmount"@)
    }

    fn mount_snapshot(&self, request: &MountRequest) -> (r: Result<MountHandle>)
        ensures
            r is Err && fault(r->Err_0) == refused(*self, "mount_snapshot"@),
    {
        self.0.mount_snapshot(request)
    }

    fn unmount(&self, handle: &MountHandle) -> (r: Result<()>)
        ensures
            r is Err && fault(r->Err_0) == refused(*self, "unmount"@),
    {
        self.0.unmount(handle)
    }
}

} // verus!
