//! The Linux backends: Btrfs, LVM and ZFS, chosen by provider name.
use vstd::prelude::*;

use crate::backend::Backend;
use crate::error::{Error, Fault, Result, fault};
use crate::mount::MountManager;
use crate::platform::BackendDescriptor;
use crate::text::{chars_eq_str, chars_of, concat3};
use crate::types::{Capability, MountHandle, MountRequest};

pub mod btrfs;
pub mod lvm;
pub mod zfs;

pub use btrfs::BtrfsBackend;
pub use lvm::LvmBackend;
pub use zfs::ZfsBackend;

verus! {

/// The provider used when none is named.
pub const DEFAULT_PROVIDER: &'static str = "btrfs";

#[derive(Debug, Clone)]
pub enum LinuxBackend {
    Btrfs(BtrfsBackend),
    Lvm(LvmBackend),
    Zfs(ZfsBackend),
}

/// The descriptor of a Linux backend with the given provider, name and capabilities.
pub open spec fn is_linux_descriptor(
    d: BackendDescriptor,
    provider: Seq<char>,
    name: Seq<char>,
    caps: Seq<Capability>,
) -> bool {
    &&& d.platform@ == "linux"@
    &&& d.provider_name matches Some(p) && p@ == provider
    &&& d.backend_name@ == name
    &&& d.capabilities@ == caps
}

/// The provider that a name selects, if any.
pub open spec fn provider_of(name: Seq<char>) -> Option<Seq<char>> {
    if name == "btrfs"@ || name == "lvm"@ || name == "zfs"@ {
        Some(name)
    } else {
        None
    }
}

impl LinuxBackend {
    /// The provider of this backend: `btrfs`, `lvm` or `zfs`.
    pub open spec fn provider(&self) -> Seq<char> {
        match self {
            LinuxBackend::Btrfs(_) => "btrfs"@,
            LinuxBackend::Lvm(_) => "lvm"@,
            LinuxBackend::Zfs(_) => "zfs"@,
        }
    }

    /// The backend name of this backend.
    pub open spec fn name_of(&self) -> Seq<char> {
        match self {
            LinuxBackend::Btrfs(_) => "linux-btrfs"@,
            LinuxBackend::Lvm(_) => "linux-lvm"@,
            LinuxBackend::Zfs(_) => "linux-zfs"@,
        }
    }

    /// The capabilities of this backend.
    pub open spec fn caps_of(&self) -> Seq<Capability> {
        match self {
            LinuxBackend::Btrfs(_) => btrfs::btrfs_capabilities_spec(),
            LinuxBackend::Lvm(_) => lvm::lvm_capabilities_spec(),
            LinuxBackend::Zfs(_) => zfs::zfs_capabilities_spec(),
        }
    }

    /// The backend of the named provider: `btrfs`, `lvm` or `zfs`.
    pub fn named(name: &str) -> (r: Result<Self>)
        ensures
            match provider_of(name@) {
                Some(p) => r matches Ok(b) && b.provider() == p,
                None => r matches Err(e) && fault(e) == (Fault::InvalidArgument {
                    message: "unknown linux snapshot provider `"@ + name@ + "`"@,
                }),
            },
    {
        let v = chars_of(name);
        if chars_eq_str(v.as_slice(), "btrfs") {
            Ok(LinuxBackend::Btrfs(BtrfsBackend::new()))
        } else if chars_eq_str(v.as_slice(), "lvm") {
            Ok(LinuxBackend::Lvm(LvmBackend::new()))
        } else if chars_eq_str(v.as_slice(), "zfs") {
            Ok(LinuxBackend::Zfs(ZfsBackend::new()))
        } else {
            Err(
                Error::InvalidArgument {
                    message: concat3("unknown linux snapshot provider `", name, "`"),
                },
            )
        }
    }

    /// One backend of each provider, in the order btrfs, lvm, zfs.
    pub fn available() -> (r: [Self; 3])
        ensures
            r@[0] is Btrfs,
            r@[1] is Lvm,
            r@[2] is Zfs,
    {
        [
            LinuxBackend::Btrfs(BtrfsBackend::new()),
            LinuxBackend::Lvm(LvmBackend::new()),
            LinuxBackend::Zfs(ZfsBackend::new()),
        ]
    }

    pub fn provider_name(&self) -> (r: &'static str)
        ensures
            r@ == self.provider(),
    {
        match self {
            LinuxBackend::Btrfs(_) => "btrfs",
            LinuxBackend::Lvm(_) => "lvm",
            LinuxBackend::Zfs(_) => "zfs",
        }
    }

    /// The descriptor of this backend.
    pub fn descriptor(&self) -> (r: BackendDescriptor)
        ensures
            is_linux_descriptor(r, self.provider(), self.name_of(), self.caps_of()),
    {
        BackendDescriptor {
            platform: "linux",
            provider_name: Some(self.provider_name()),
            backend_name: Backend::backend_name(self),
            capabilities: Backend::capabilities(self),
        }
    }
}

impl Default for LinuxBackend {
    /// The backend of the default provider, Btrfs.
    fn default() -> (r: Self)
        ensures
            r is Btrfs,
    {
        LinuxBackend::Btrfs(BtrfsBackend::new())
    }
}

impl Backend for LinuxBackend {
    open spec fn capability_set(&self) -> Seq<Capability> {
        self.caps_of()
    }

    fn backend_name(&self) -> (r: &'static str)
        ensures
            r@ == self.name_of(),
    {
        match self {
            LinuxBackend::Btrfs(inner) => inner.backend_name(),
            LinuxBackend::Lvm(inner) => inner.backend_name(),
            LinuxBackend::Zfs(inner) => inner.backend_name(),
        }
    }

    fn capabilities(&self) -> (r: &'static [Capability])
        ensures
            r@ == self.caps_of(),
    {
        match self {
            LinuxBackend::Btrfs(inner) => inner.capabilities(),
            LinuxBackend::Lvm(inner) => inner.capabilities(),
            LinuxBackend::Zfs(inner) => inner.capabilities(),
        }
    }
}

impl MountManager for LinuxBackend {
    open spec fn mounting(&self, request: MountRequest, r: Result<MountHandle>) -> bool {
        r is Err && fault(r->Err_0) == (Fault::UnsupportedOperation {
            operation: "mount_snapshot"@,
            backend: self.name_of(),
        })
    }

    open spec fn unmounting(&self, handle: MountHandle, r: Result<()>) -> bool {
        r is Err && fault(r->Err_0) == (Fault::UnsupportedOperation {
            operation: "unmount"@,
            backend: self.name_of(),
        })
    }

    fn mount_snapshot(&self, request: &MountRequest) -> (r: Result<MountHandle>)
        ensures
            r is Err && fault(r->Err_0) == (Fault::UnsupportedOperation {
                operation: "mount_snapshot"@,
                backend: self.name_of(),
            }),
    {
        match self {
            LinuxBackend::Btrfs(inner) => inner.mount_snapshot(request),
            LinuxBackend::Lvm(inner) => inner.mount_snapshot(request),
            LinuxBackend::Zfs(inner) => inner.mount_snapshot(request),
        }
    }

    fn unmount(&self, handle: &MountHandle) -> (r: Result<()>)
        ensures
            r is Err && fault(r->Err_0) == (Fault::UnsupportedOperation {
                operation: "unmount"@,
                backend: self.name_of(),
            }),
    {
        match self {
            LinuxBackend::Btrfs(inner) => inner.unmount(handle),
            LinuxBackend::Lvm(inner) => inner.unmount(handle),
            LinuxBackend::Zfs(inner) => inner.unmount(handle),
        }
    }
}

/// The descriptors of the Linux backends, in the order btrfs, lvm, zfs.
pub fn available_descriptors() -> (r: Vec<BackendDescriptor>)
    ensures
        r@.len() == 3,
        is_linux_descriptor(r@[0], "btrfs"@, "linux-btrfs"@, btrfs::btrfs_capabilities_spec()),
        is_linux_descriptor(r@[1], "lvm"@, "linux-lvm"@, lvm::lvm_capabilities_spec()),
        is_linux_descriptor(r@[2], "zfs"@, "linux-zfs"@, zfs::zfs_capabilities_spec()),
{
    let backends = LinuxBackend::available();
    let mut r: Vec<BackendDescriptor> = Vec::new();
    r.push(backends[0].descriptor());
    r.push(backends[1].descriptor());
    r.push(backends[2].descriptor());
    r
}


/// Every Linux backend supports crash-consistent snapshots, and none promises
/// application-consistent ones.
pub proof fn lemma_linux_snapshot_consistency(b: LinuxBackend)
    ensures
        b.capability_set().contains(Capability::CrashConsistentSnapshot),
        !b.capability_set().contains(Capability::ApplicationConsistentSnapshot),
{
    let caps = b.capability_set();
    assert(caps[0] == Capability::CrashConsistentSnapshot);
    assert forall|i: int| 0 <= i < caps.len() implies caps[i]
        != Capability::ApplicationConsistentSnapshot by {
        match b {
            LinuxBackend::Btrfs(_) => {},
            LinuxBackend::Lvm(_) => {},
            LinuxBackend::Zfs(_) => {},
        }
    }
}

/// A backend's own provider name selects a backend of that provider.
pub proof fn lemma_provider_name_selects_itself(b: LinuxBackend)
    ensures
        provider_of(b.provider()) == Some(b.provider()),
{
}

} // verus!
