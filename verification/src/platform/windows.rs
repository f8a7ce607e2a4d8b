//! Windows: the VSS backend, and the decisions of its snapshots and of its block-copy
//! backup and restore. The shadow-copy tools and the copies run outside the library, which
//! decides each step (see `vss`, `vss_copy_source` and `vss_restore_copy`).
use vstd::prelude::*;

use crate::backend::Backend;
use crate::copy::{DEFAULT_BLOCK_SIZE, effective_block_size};
use crate::error::{Error, Fault, Result, fault, outcome};
use crate::mount::MountManager;
use crate::platform::{StubBackend, unsupported};
use crate::text::{
    chars_of, concat3, opt_str, slice_chars, string_of, trim, trim_bounds, trim_end_char,
    trim_end_char_bound,
};
use crate::types::{
    BackupPlan, BackupSource, BackupTarget, Capability, MountHandle, MountRequest, RestorePlan,
    SnapshotHandle, SnapshotInfo, SnapshotPolicy, SnapshotRequest, VolumeRef, copy_opt_string,
};

pub mod vss;

verus! {

/// The capabilities of the Windows backend.
pub open spec fn windows_capabilities_spec() -> Seq<Capability> {
    seq![
        Capability::CrashConsistentSnapshot,
        Capability::ApplicationConsistentSnapshot,
        Capability::ReadOnlySnapshotMount,
        Capability::BlockLevelBackup,
        Capability::BlockLevelRestore,
        Capability::DirectDeviceAccess,
    ]
}

fn windows_capabilities() -> (r: &'static [Capability])
    ensures
        r@ == windows_capabilities_spec(),
{
    &[
        Capability::CrashConsistentSnapshot,
        Capability::ApplicationConsistentSnapshot,
        Capability::ReadOnlySnapshotMount,
        Capability::BlockLevelBackup,
        Capability::BlockLevelRestore,
        Capability::DirectDeviceAccess,
    ]
}

#[derive(Debug)]
pub struct WindowsBackend(StubBackend);

impl Clone for WindowsBackend {
    /// Every Windows backend is the same: a copy is a new one.
    fn clone(&self) -> (r: Self) {
        WindowsBackend::new()
    }
}

impl WindowsBackend {
    #[verifier::type_invariant]
    spec fn well_formed(self) -> bool {
        self.0.name()@ == "windows-vss"@ && self.0.caps()@ == windows_capabilities_spec()
    }

    /// The stub this backend answers with.
    pub closed spec fn stub(&self) -> StubBackend {
        self.0
    }

    pub fn new() -> (r: Self)
        ensures
            r.stub().name()@ == "windows-vss"@,
            r.stub().caps()@ == windows_capabilities_spec(),
    {
        WindowsBackend(StubBackend::new("windows-vss", windows_capabilities()))
    }

    pub fn backend_name(&self) -> (r: &'static str)
        ensures
            r@ == "windows-vss"@,
    {
        proof {
            use_type_invariant(self);
        }
        self.0.backend_name()
    }

    pub fn capabilities(&self) -> (r: &'static [Capability])
        ensures
            r@ == windows_capabilities_spec(),
    {
        proof {
            use_type_invariant(self);
        }
        self.0.capabilities()
    }
}

impl Default for WindowsBackend {
    /// The one Windows backend, with the VSS capabilities.
    fn default() -> (r: Self)
        ensures
            r.capability_set() == windows_capabilities_spec(),
    {
        WindowsBackend::new()
    }
}

impl Backend for WindowsBackend {
    open spec fn capability_set(&self) -> Seq<Capability> {
        windows_capabilities_spec()
    }

    fn backend_name(&self) -> (r: &'static str)
        ensures
            r@ == "windows-vss"@,
    {
        WindowsBackend::backend_name(self)
    }

    fn capabilities(&self) -> (r: &'static [Capability])
        ensures
            r@ == windows_capabilities_spec(),
    {
        WindowsBackend::capabilities(self)
    }
}

/// The refusal of `operation` by the Windows backend.
pub open spec fn windows_refused(operation: Seq<char>) -> Fault {
    Fault::UnsupportedOperation { operation, backend: "windows-vss"@ }
}

impl MountManager for WindowsBackend {
    open spec fn mounting(&self, request: MountRequest, r: Result<MountHandle>) -> bool {
        r is Err && fault(r->Err_0) == windows_refused("mount_snapshot"@)
    }

    open spec fn unmounting(&self, handle: MountHandle, r: Result<()>) -> bool {
        r is Err && fault(r->Err_0) == windows_refused("unmount"@)
    }

    fn mount_snapshot(&self, _request: &MountRequest) -> (r: Result<MountHandle>)
        ensures
            r is Err && fault(r->Err_0) == windows_refused("mount_snapshot"@),
    {
        Err(unsupported("mount_snapshot", WindowsBackend::backend_name(self)))
    }

    fn unmount(&self, _handle: &MountHandle) -> (r: Result<()>)
        ensures
            r is Err && fault(r->Err_0) == windows_refused("unmount"@),
    {
        Err(unsupported("unmount", WindowsBackend::backend_name(self)))
    }
}

// ---------------------------------------------------------------------------
// Block-level paths and the steps of a VSS backup or restore
// ---------------------------------------------------------------------------

/// A volume id without trailing `\` and then trailing `/` characters.
pub open spec fn trim_volume_separators(id: Seq<char>) -> Seq<char> {
    trim_end_char(trim_end_char(id, '\\'), '/')
}

/// A volume id without trailing `\\` and then trailing `/` characters.
pub fn without_volume_separators(id: &str) -> (r: Vec<char>)
    ensures
        r@ == trim_volume_separators(id@),
{
    let v = chars_of(id);
    let b1 = trim_end_char_bound(v.as_slice(), '\\');
    let first = slice_chars(v.as_slice(), 0, b1);
    let b2 = trim_end_char_bound(first.as_slice(), '/');
    slice_chars(first.as_slice(), 0, b2)
}

/// The path used for block-level I/O on a volume: a drive letter `X:` becomes the raw
/// device `\\.\X`; anything else (a volume GUID path among them) passes through without
/// its trailing separators.
pub open spec fn device_volume_path(id: Seq<char>) -> Seq<char> {
    let t = trim_volume_separators(id);
    if t.len() == 2 && t[1] == ':' && (t[0] as u32) < 128 {
        seq!['\\', '\\', '.', '\\', t[0]]
    } else {
        t
    }
}

/// Convert a volume reference to a path suitable for block-level I/O.
/// Drive letters (e.g. "C:" or "C:\") become a raw device path; volume GUID paths pass
/// through unchanged.
pub fn volume_path_for_device(id: &str) -> (r: String)
    ensures
        r@ == device_volume_path(id@),
{
    let t = without_volume_separators(id);
    if t.len() == 2 && t[1] == ':' && (t[0] as u32) < 128 {
        let mut out: Vec<char> = Vec::new();
        out.push('\\');
        out.push('\\');
        out.push('.');
        out.push('\\');
        out.push(t[0]);
        assert(out@ =~= seq!['\\', '\\', '.', '\\', t@[0]]);
        string_of(out.as_slice())
    } else {
        string_of(t.as_slice())
    }
}

/// How a VSS backup obtains the data it copies.
#[derive(Debug)]
pub enum VssCopySource {
    /// Copy from the device of an existing snapshot, once its device path is known.
    ExistingSnapshot { snapshot_id: String },
    /// Create a temporary snapshot with this request, then copy from its device.
    TemporarySnapshot { request: SnapshotRequest },
    /// Copy from the live volume at this path.
    Direct { path: String },
}

/// The first step of a VSS backup: how the copy source is obtained.
pub fn vss_copy_source(plan: &BackupPlan) -> (r: VssCopySource)
    ensures
        match plan.source {
            BackupSource::Snapshot(s) => r matches VssCopySource::ExistingSnapshot { snapshot_id }
                && snapshot_id@ == s.id@,
            BackupSource::Volume(v) => match plan.snapshot_policy {
                SnapshotPolicy::Temporary { kind, label, .. } => r matches VssCopySource::TemporarySnapshot { request }
                    && request.source.id@ == v.id@ && request.kind == kind && opt_str(request.label)
                    == opt_str(label) && request.read_only,
                SnapshotPolicy::Disabled => r matches VssCopySource::Direct { path } && path@
                    == device_volume_path(v.id@),
            },
        },
{
    match &plan.source {
        BackupSource::Snapshot(s) => VssCopySource::ExistingSnapshot { snapshot_id: s.id.clone() },
        BackupSource::Volume(v) => match &plan.snapshot_policy {
            SnapshotPolicy::Temporary { kind, label, .. } => VssCopySource::TemporarySnapshot {
                request: SnapshotRequest {
                    source: v.duplicate(),
                    kind: *kind,
                    label: copy_opt_string(label),
                    read_only: true,
                },
            },
            SnapshotPolicy::Disabled => VssCopySource::Direct { path: volume_path_for_device(&v.id) },
        },
    }
}

/// Where a VSS backup copies from once the temporary snapshot was attempted: the
/// snapshot's device when it reported a non-blank one (the snapshot is then to be
/// deleted afterwards); otherwise the live volume, with nothing to delete.
pub open spec fn vss_source_after(
    volume: Seq<char>,
    created: std::result::Result<SnapshotInfo, Error>,
) -> (Seq<char>, Option<Seq<char>>) {
    match created {
        Ok(info) => match info.path_hint {
            Some(p) => if trim(p@).len() > 0 {
                (p@, Some(info.handle.id@))
            } else {
                (device_volume_path(volume), None)
            },
            None => (device_volume_path(volume), None),
        },
        Err(_) => (device_volume_path(volume), None),
    }
}

/// The copy source, and the snapshot to delete afterwards, given the outcome of
/// creating the temporary snapshot.
pub fn vss_source_after_snapshot(volume: &VolumeRef, created: &Result<SnapshotInfo>) -> (r: (
    String,
    Option<String>,
))
    ensures
        (r.0@, opt_str(r.1)) == vss_source_after(volume.id@, *created),
{
    match created {
        Ok(info) => match &info.path_hint {
            Some(p) => {
                let pv = chars_of(p);
                let (a, b) = trim_bounds(pv.as_slice());
                if a < b {
                    (p.clone(), Some(info.handle.id.clone()))
                } else {
                    (volume_path_for_device(&volume.id), None)
                }
            },
            None => (volume_path_for_device(&volume.id), None),
        },
        Err(_) => (volume_path_for_device(&volume.id), None),
    }
}

/// The image file a VSS backup writes.
pub fn vss_backup_target(plan: &BackupPlan) -> (r: Result<String>)
    ensures
        outcome(r) == match plan.target {
            BackupTarget::ImageFile(p) => Ok(p@),
            BackupTarget::Device(p) => Err(
                Fault::InvalidArgument {
                    message: "vss backup currently supports only image-file targets, got `"@ + p@
                        + "`"@,
                },
            ),
        },
{
    match &plan.target {
        BackupTarget::ImageFile(p) => Ok(p.clone()),
        BackupTarget::Device(p) => Err(
            Error::InvalidArgument {
                message: concat3("vss backup currently supports only image-file targets, got `", p, "`"),
            },
        ),
    }
}

/// The result of a VSS backup from the results of the copy and of the cleanup: the copy's
/// error first, then the cleanup's.
pub fn vss_backup_outcome(copy: Result<()>, cleanup: Result<()>) -> (r: Result<()>)
    ensures
        match (copy, cleanup) {
            (Ok(_), Ok(_)) => r is Ok,
            (Err(e), _) => r == Err::<(), Error>(e),
            (Ok(_), Err(e)) => r == Err::<(), Error>(e),
        },
{
    match (copy, cleanup) {
        (Ok(_), Ok(())) => Ok(()),
        (Err(error), Ok(())) => Err(error),
        (Ok(_), Err(error)) => Err(error),
        (Err(error), Err(_)) => Err(error),
    }
}

/// What a VSS restore copies: from the image file, to the destination's block device,
/// in chunks of the plan's size; it needs `force`.
pub open spec fn vss_restore(plan: RestorePlan) -> std::result::Result<
    (Seq<char>, Seq<char>, usize),
    Fault,
> {
    match plan.source {
        BackupTarget::Device(p) => Err(
            Fault::InvalidArgument {
                message: "vss restore currently supports only image-file sources, got `"@ + p@
                    + "`"@,
            },
        ),
        BackupTarget::ImageFile(p) => if !plan.force {
            Err(
                Fault::InvalidArgument {
                    message: "vss restore requires `--force` because it overwrites the destination volume"@,
                },
            )
        } else {
            Ok(
                (
                    p@,
                    device_volume_path(plan.destination.id@),
                    match plan.block_size {
                        Some(b) => b,
                        None => DEFAULT_BLOCK_SIZE,
                    },
                ),
            )
        },
    }
}

/// The copy a VSS restore performs: source file, destination device and chunk size.
pub fn vss_restore_copy(plan: &RestorePlan) -> (r: Result<(String, String, usize)>)
    ensures
        match vss_restore(*plan) {
            Ok((s, d, b)) => r matches Ok((rs, rd, rb)) && rs@ == s && rd@ == d && rb == b,
            Err(f) => r matches Err(e) && fault(e) == f,
        },
{
    let source = match &plan.source {
        BackupTarget::ImageFile(p) => p.clone(),
        BackupTarget::Device(p) => {
            return Err(
                Error::InvalidArgument {
                    message: concat3(
                        "vss restore currently supports only image-file sources, got `",
                        p,
                        "`",
                    ),
                },
            );
        },
    };
    if !plan.force {
        return Err(
            Error::InvalidArgument {
                message: String::from_str(
                    "vss restore requires `--force` because it overwrites the destination volume",
                ),
            },
        );
    }
    let destination = volume_path_for_device(&plan.destination.id);
    let block_size = effective_block_size(plan.block_size);
    Ok((source, destination, block_size))
}

} // verus!
