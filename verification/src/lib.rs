//! Core library surface for the volume backup project.
//!
//! The main public model is:
//!
//! - [`BackupPlan`] for export/send style backup flows
//! - [`RestorePlan`] for import/receive style restore flows
//! - [`SnapshotRequest`] and [`SnapshotProvider`] for snapshot lifecycle operations
//!
//! `BackupPlan` distinguishes live volume sources from explicit snapshot sources so
//! providers like Btrfs and ZFS can support file-based send/receive workflows without
//! overloading plain strings.
pub mod backend;
pub mod backup;
pub mod cli;
pub mod copy;
pub mod copy_mount;
pub mod error;
pub mod host;
pub mod mount;
pub mod path;
pub mod platform;
pub mod process;
pub mod restore;
pub mod snapshot;
pub mod text;
pub mod types;

pub use backend::Backend;
pub use backup::BackupExecutor;
pub use error::{Error, Result};
pub use mount::MountManager;
pub use restore::RestorePlanner;
pub use snapshot::SnapshotProvider;
pub use types::{
    BackupPlan, BackupSource, BackupTarget, Capability, MountHandle, MountMode, MountRequest,
    RestorePlan, SnapshotHandle, SnapshotInfo, SnapshotKind, SnapshotPolicy, SnapshotRef,
    SnapshotRequest, VolumeRef,
};
