//! Backends per platform, and what callers can learn of them without knowing which one runs.
use vstd::prelude::*;

use crate::backend::Backend;
use crate::backup::BackupExecutor;
use crate::error::{Error, Fault, Result, fault};
use crate::mount::MountManager;
use crate::restore::RestorePlanner;
use crate::snapshot::SnapshotProvider;
use crate::types::{
    BackupPlan, Capability, MountHandle, MountRequest, RestorePlan, SnapshotHandle, SnapshotInfo,
    SnapshotRequest, VolumeRef,
};

pub mod linux;
pub mod macos;
pub mod windows;

pub use linux::LinuxBackend as CurrentBackend;

verus! {

#[derive(Debug, Clone, Copy, PartialEq, Eq)]
pub struct BackendDescriptor {
    pub platform: &'static str,
    pub provider_name: Option<&'static str>,
    pub backend_name: &'static str,
    pub capabilities: &'static [Capability],
}

/// The platform whose backends `current_backend` and `available_backend_descriptors`
/// give: this library's backends are those of Linux.
pub fn current_platform() -> (r: &'static str)
    ensures
        r@ == "linux"@,
{
    "linux"
}

/// The backend of the platform this library is built for (Linux): the default provider.
pub fn current_backend() -> (r: CurrentBackend)
    ensures
        r is Btrfs,
{
    CurrentBackend::default()
}

/// The descriptor of the current backend.
pub fn current_backend_descriptor() -> (r: BackendDescriptor)
    ensures
        r.platform@ == "linux"@,
        r.provider_name matches Some(p) && p@ == "btrfs"@,
        r.backend_name@ == "linux-btrfs"@,
        r.capabilities@ == linux::btrfs::btrfs_capabilities_spec(),
{
    current_backend().descriptor()
}

/// The descriptors of every backend of this platform, in the order btrfs, lvm, zfs.
pub fn available_backend_descriptors() -> (r: Vec<BackendDescriptor>)
    ensures
        r@.len() == 3,
        linux::is_linux_descriptor(r@[0], "btrfs"@, "linux-btrfs"@,
            linux::btrfs::btrfs_capabilities_spec()),
        linux::is_linux_descriptor(r@[1], "lvm"@, "linux-lvm"@,
            linux::lvm::lvm_capabilities_spec()),
        linux::is_linux_descriptor(r@[2], "zfs"@, "linux-zfs"@,
            linux::zfs::zfs_capabilities_spec()),
{
    linux::available_descriptors()
}

/// The error of an operation a backend does not support.
pub fn unsupported(operation: &'static str, backend: &'static str) -> (e: Error)
    ensures
        fault(e) == (Fault::UnsupportedOperation { operation: operation@, backend: backend@ }),
{
    Error::UnsupportedOperation { operation, backend }
}

/// A backend that supports no operation: it reports its name and capabilities and
/// answers every request with `UnsupportedOperation`.
#[derive(Debug, Clone, Default)]
pub struct StubBackend {
    backend_name: &'static str,
    capabilities: &'static [Capability],
}

impl StubBackend {
    /// The name this backend was made with.
    pub closed spec fn name(&self) -> &'static str {
        self.backend_name
    }

    /// The capabilities this backend was made with.
    pub closed spec fn caps(&self) -> &'static [Capability] {
        self.capabilities
    }

    pub fn new(backend_name: &'static str, capabilities: &'static [Capability]) -> (r: Self)
        ensures
            r.name() == backend_name,
            r.caps() == capabilities,
    {
        StubBackend { backend_name, capabilities }
    }

    pub fn backend_name(&self) -> (r: &'static str)
        ensures
            r == self.name(),
    {
        self.backend_name
    }

    pub fn capabilities(&self) -> (r: &'static [Capability])
        ensures
            r == self.caps(),
    {
        self.capabilities
    }

    /// The descriptor of this backend on the current platform.
    pub fn descriptor(&self) -> (r: BackendDescriptor)
        ensures
            r.platform@ == "linux"@,
            r.provider_name is None,
            r.backend_name == self.name(),
            r.capabilities == self.caps(),
    {
        BackendDescriptor {
            platform: current_platform(),
            provider_name: None,
            backend_name: self.backend_name,
            capabilities: self.capabilities,
        }
    }
}

impl Backend for StubBackend {
    open spec fn capability_set(&self) -> Seq<Capability> {
        self.caps()@
    }

    fn backend_name(&self) -> (r: &'static str)
        ensures
            r == self.name(),
    {
        self.backend_name
    }

    fn capabilities(&self) -> (r: &'static [Capability])
        ensures
            r == self.caps(),
    {
        self.capabilities
    }
}

impl SnapshotProvider for StubBackend {
    open spec fn creation(&self, request: SnapshotRequest, r: Result<SnapshotInfo>) -> bool {
        r is Err && fault(r->Err_0) == (Fault::UnsupportedOperation {
            operation: "create_snapshot"@,
            backend: self.name()@,
        })
    }

    open spec fn deletion(&self, snapshot: SnapshotHandle, r: Result<()>) -> bool {
        r is Err && fault(r->Err_0) == (Fault::UnsupportedOperation {
            operation: "delete_snapshot"@,
            backend: self.name()@,
        })
    }

    fn create_snapshot(&self, _request: &SnapshotRequest) -> (r: Result<SnapshotInfo>)
        ensures
            r is Err && fault(r->Err_0) == (Fault::UnsupportedOperation {
                operation: "create_snapshot"@,
                backend: self.name()@,
            }),
    {
        Err(unsupported("create_snapshot", self.backend_name))
    }

    fn delete_snapshot(&self, _snapshot: &SnapshotHandle) -> (r: Result<()>)
        ensures
            r is Err && fault(r->Err_0) == (Fault::UnsupportedOperation {
                operation: "delete_snapshot"@,
                backend: self.name()@,
            }),
    {
        Err(unsupported("delete_snapshot", self.backend_name))
    }

    fn list_snapshots(&self, _source: &VolumeRef) -> (r: Result<Vec<SnapshotInfo>>)
        ensures
            r is Err && fault(r->Err_0) == (Fault::UnsupportedOperation {
                operation: "list_snapshots"@,
                backend: self.name()@,
            }),
    {
        Err(unsupported("list_snapshots", self.backend_name))
    }
}

impl BackupExecutor for StubBackend {
    fn backup_volume(&self, _plan: &BackupPlan) -> (r: Result<()>)
        ensures
            r is Err && fault(r->Err_0) == (Fault::UnsupportedOperation {
                operation: "backup_volume"@,
                backend: self.name()@,
            }),
    {
        Err(unsupported("backup_volume", self.backend_name))
    }
}

impl RestorePlanner for StubBackend {
    fn restore_volume(&self, _plan: &RestorePlan) -> (r: Result<()>)
        ensures
            r is Err && fault(r->Err_0) == (Fault::UnsupportedOperation {
                operation: "restore_volume"@,
                backend: self.name()@,
            }),
    {
        Err(unsupported("restore_volume", self.backend_name))
    }
}

impl MountManager for StubBackend {
    open spec fn mounting(&self, request: MountRequest, r: Result<MountHandle>) -> bool {
        r is Err && fault(r->Err_0) == (Fault::UnsupportedOperation {
            operation: "mount_snapshot"@,
            backend: self.name()@,
        })
    }

    open spec fn unmounting(&self, handle: MountHandle, r: Result<()>) -> bool {
        r is Err && fault(r->Err_0) == (Fault::UnsupportedOperation {
            operation: "unmount"@,
            backend: self.name()@,
        })
    }

    fn mount_snapshot(&self, _request: &MountRequest) -> (r: Result<MountHandle>)
        ensures
            r is Err && fault(r->Err_0) == (Fault::UnsupportedOperation {
                operation: "mount_snapshot"@,
                backend: self.name()@,
            }),
    {
        Err(unsupported("mount_snapshot", self.backend_name))
    }

    fn unmount(&self, _handle: &MountHandle) -> (r: Result<()>)
        ensures
            r is Err && fault(r->Err_0) == (Fault::UnsupportedOperation {
                operation: "unmount"@,
                backend: self.name()@,
            }),
    {
        Err(unsupported("unmount", self.backend_name))
    }
}

} // verus!
