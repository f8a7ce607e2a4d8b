//! Volume Shadow Copy: snapshot contexts, timeouts, specs, and the checks a request must
//! pass before a snapshot set is started.
use vstd::prelude::*;

use crate::backend::Backend;
use crate::error::{Error, Fault, Result, fault, outcome};
use crate::text::{chars_of, concat3, starts_with, starts_with_str, trim, trim_bounds};
use crate::types::{Capability, SnapshotKind, SnapshotRequest};

pub mod ffi;
pub mod requestor;
pub mod session;

verus! {

pub const BACKEND_NAME: &'static str = "windows-vss";

#[derive(Debug, Clone, Copy, PartialEq, Eq)]
pub enum WriterCoordination {
    Disabled,
    Enabled,
}

#[derive(Debug, Clone, Copy, PartialEq, Eq)]
pub enum SnapshotContext {
    Backup,
    FileShareBackup,
    ClientAccessible,
}

/// The name of each snapshot context.
pub open spec fn context_name(c: SnapshotContext) -> Seq<char> {
    match c {
        SnapshotContext::Backup => "backup"@,
        SnapshotContext::FileShareBackup => "file-share-backup"@,
        SnapshotContext::ClientAccessible => "client-accessible"@,
    }
}

impl SnapshotContext {
    pub fn as_str(self) -> (r: &'static str)
        ensures
            r@ == context_name(self),
    {
        match self {
            SnapshotContext::Backup => "backup",
            SnapshotContext::FileShareBackup => "file-share-backup",
            SnapshotContext::ClientAccessible => "client-accessible",
        }
    }
}

#[derive(Debug, Clone, Copy, PartialEq, Eq)]
pub struct VssTimeouts {
    pub gather_writer_metadata_ms: u32,
    pub prepare_for_backup_ms: u32,
    pub do_snapshot_set_ms: u32,
}

impl Default for VssTimeouts {
    /// 15 s to gather writer metadata, 60 s to prepare for backup and 60 s to snapshot.
    fn default() -> (r: Self)
        ensures
            r == (VssTimeouts {
                gather_writer_metadata_ms: 15000,
                prepare_for_backup_ms: 60000,
                do_snapshot_set_ms: 60000,
            }),
    {
        VssTimeouts {
            gather_writer_metadata_ms: 15000,
            prepare_for_backup_ms: 60000,
            do_snapshot_set_ms: 60000,
        }
    }
}

#[derive(Debug, Clone, PartialEq, Eq)]
pub struct VssSnapshotSpec {
    pub request: SnapshotRequest,
    pub context: SnapshotContext,
    pub transportable: bool,
    pub auto_release: bool,
}

impl VssSnapshotSpec {
    /// A backup-context spec, not transportable, released automatically.
    pub fn new(request: SnapshotRequest) -> (r: Self)
        ensures
            r == (VssSnapshotSpec {
                request,
                context: SnapshotContext::Backup,
                transportable: false,
                auto_release: true,
            }),
    {
        VssSnapshotSpec {
            request,
            context: SnapshotContext::Backup,
            transportable: false,
            auto_release: true,
        }
    }

    pub fn with_context(self, context: SnapshotContext) -> (r: Self)
        ensures
            r == (VssSnapshotSpec { context, ..self }),
    {
        VssSnapshotSpec { context, ..self }
    }

    pub fn transportable(self, enabled: bool) -> (r: Self)
        ensures
            r == (VssSnapshotSpec { transportable: enabled, ..self }),
    {
        VssSnapshotSpec { transportable: enabled, ..self }
    }

    pub fn auto_release(self, enabled: bool) -> (r: Self)
        ensures
            r == (VssSnapshotSpec { auto_release: enabled, ..self }),
    {
        VssSnapshotSpec { auto_release: enabled, ..self }
    }
}

#[derive(Debug, Clone)]
pub struct VssSnapshotProvider {
    writer_coordination: WriterCoordination,
    context: SnapshotContext,
    timeouts: VssTimeouts,
}

/// What a VSS snapshot request must satisfy: a non-blank source that is not a raw device
/// path, and no application consistency without writer coordination.
pub open spec fn vss_request_check(
    coordination: WriterCoordination,
    request: SnapshotRequest,
) -> std::result::Result<(), Fault> {
    let id = request.source.id@;
    if trim(id).len() == 0 {
        Err(Fault::InvalidVolume { volume: id })
    } else if starts_with(id, "\\\\.\\"@) {
        Err(
            Fault::InvalidArgument {
                message: "VSS expects a volume GUID path or mounted volume path, got `"@ + id
                    + "`"@,
            },
        )
    } else if coordination == WriterCoordination::Disabled && request.kind
        == SnapshotKind::ApplicationConsistent {
        Err(
            Fault::MissingCapability {
                capability: "application_consistent_snapshot"@,
                backend: "windows-vss"@,
            },
        )
    } else {
        Ok(())
    }
}

/// The capabilities of the VSS snapshot provider.
pub open spec fn vss_capabilities_spec() -> Seq<Capability> {
    seq![
        Capability::CrashConsistentSnapshot,
        Capability::ApplicationConsistentSnapshot,
        Capability::BlockLevelBackup,
        Capability::BlockLevelRestore,
        Capability::DirectDeviceAccess,
    ]
}

impl VssSnapshotProvider {
    pub closed spec fn coordination(&self) -> WriterCoordination {
        self.writer_coordination
    }

    pub closed spec fn snapshot_context(&self) -> SnapshotContext {
        self.context
    }

    pub closed spec fn limits(&self) -> VssTimeouts {
        self.timeouts
    }

    /// Writer coordination enabled, backup context, default timeouts.
    pub fn new() -> (r: Self)
        ensures
            r.coordination() == WriterCoordination::Enabled,
            r.snapshot_context() == SnapshotContext::Backup,
            r.limits() == (VssTimeouts {
                gather_writer_metadata_ms: 15000,
                prepare_for_backup_ms: 60000,
                do_snapshot_set_ms: 60000,
            }),
    {
        VssSnapshotProvider {
            writer_coordination: WriterCoordination::Enabled,
            context: SnapshotContext::Backup,
            timeouts: VssTimeouts::default(),
        }
    }

    pub fn with_writer_coordination(self, coordination: WriterCoordination) -> (r: Self)
        ensures
            r.coordination() == coordination,
            r.snapshot_context() == self.snapshot_context(),
            r.limits() == self.limits(),
    {
        VssSnapshotProvider { writer_coordination: coordination, ..self }
    }

    pub fn with_context(self, context: SnapshotContext) -> (r: Self)
        ensures
            r.coordination() == self.coordination(),
            r.snapshot_context() == context,
            r.limits() == self.limits(),
    {
        VssSnapshotProvider { context, ..self }
    }

    pub fn with_timeouts(self, timeouts: VssTimeouts) -> (r: Self)
        ensures
            r.coordination() == self.coordination(),
            r.snapshot_context() == self.snapshot_context(),
            r.limits() == timeouts,
    {
        VssSnapshotProvider { timeouts, ..self }
    }

    pub fn writer_coordination(&self) -> (r: WriterCoordination)
        ensures
            r == self.coordination(),
    {
        self.writer_coordination
    }

    pub fn context(&self) -> (r: SnapshotContext)
        ensures
            r == self.snapshot_context(),
    {
        self.context
    }

    pub fn timeouts(&self) -> (r: VssTimeouts)
        ensures
            r == self.limits(),
    {
        self.timeouts
    }

    /// The spec of a snapshot of `request` in this provider's context.
    pub fn build_spec(&self, request: SnapshotRequest) -> (r: VssSnapshotSpec)
        ensures
            r == (VssSnapshotSpec {
                request,
                context: self.snapshot_context(),
                transportable: false,
                auto_release: true,
            }),
    {
        VssSnapshotSpec::new(request).with_context(self.context)
    }

    pub fn validate_request(&self, request: &SnapshotRequest) -> (r: Result<()>)
        ensures
            outcome(r) == vss_request_check(self.coordination(), *request),
    {
        let v = chars_of(&request.source.id);
        let (a, b) = trim_bounds(v.as_slice());
        if a == b {
            return Err(Error::InvalidVolume { volume: request.source.id.clone() });
        }
        if starts_with_str(v.as_slice(), "\\\\.\\") {
            return Err(
                Error::InvalidArgument {
                    message: concat3(
                        "VSS expects a volume GUID path or mounted volume path, got `",
                        &request.source.id,
                        "`",
                    ),
                },
            );
        }
        if let (WriterCoordination::Disabled, SnapshotKind::ApplicationConsistent) = (
            self.writer_coordination,
            request.kind,
        ) {
            return Err(
                Error::MissingCapability {
                    capability: Capability::ApplicationConsistentSnapshot.as_str(),
                    backend: BACKEND_NAME,
                },
            );
        }
        Ok(())
    }
}

impl VssSnapshotProvider {
    /// Start a session on a snapshot of `spec`, once the request passed the checks:
    /// `init` tries the COM layer, `create` makes the snapshot set.
    pub fn start_session<I, C>(&self, spec: VssSnapshotSpec, init: I, create: C) -> (r: Result<
        session::VssSession,
    >)
        where
            I: FnOnce() -> Result<()>,
            C: FnOnce(&VssSnapshotSpec, VssTimeouts) -> Result<ffi::RawSnapshotSet>,
        requires
            init.requires(()),
            create.requires((&spec, self.limits())),
        ensures
            vss_request_check(self.coordination(), spec.request) matches Err(f) ==> (r matches Err(
                e,
            ) && fault(e) == f),
            vss_request_check(self.coordination(), spec.request) is Ok ==> exists|
                c: Result<ffi::RawSnapshotSet>,
            |
                #![trigger create.ensures((&spec, self.limits()), c)]
                create.ensures((&spec, self.limits()), c) && match c {
                    Ok(raw) => r matches Ok(s) && s.started_spec() == spec && s.limits()
                        == self.limits() && s.snapshot_set() == raw,
                    Err(e) => r matches Err(f) && f == e,
                },
    {
        self.validate_request(&spec.request)?;
        let requestor = requestor::VssRequestor::initialize(self.timeouts, init)?;
        requestor.start_session(spec, create)
    }
}

impl Default for VssSnapshotProvider {
    fn default() -> (r: Self)
        ensures
            r.coordination() == WriterCoordination::Enabled,
            r.snapshot_context() == SnapshotContext::Backup,
    {
        VssSnapshotProvider::new()
    }
}

impl Backend for VssSnapshotProvider {
    open spec fn capability_set(&self) -> Seq<Capability> {
        vss_capabilities_spec()
    }

    fn backend_name(&self) -> (r: &'static str)
        ensures
            r@ == "windows-vss"@,
    {
        BACKEND_NAME
    }

    fn capabilities(&self) -> (r: &'static [Capability])
        ensures
            r@ == vss_capabilities_spec(),
    {
        &[
            Capability::CrashConsistentSnapshot,
            Capability::ApplicationConsistentSnapshot,
            Capability::BlockLevelBackup,
            Capability::BlockLevelRestore,
            Capability::DirectDeviceAccess,
        ]
    }
}

} // verus!
