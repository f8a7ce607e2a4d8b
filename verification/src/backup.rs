//! Backup execution.
use vstd::prelude::*;

use crate::backend::Backend;
use crate::error::{Error, Result};
use crate::types::BackupPlan;

verus! {

/// Backup/export a volume to a stream or image file.
///
/// Implementations may use stream-based send (Btrfs `send`, ZFS `send`) or
/// block-level copy (LVM `dd`-style, VSS snapshot + copy). The trait name
/// reflects the execution role, not the underlying mechanism.
///
/// # Errors
///
/// - [`Error::UnsupportedOperation`](crate::error::Error::UnsupportedOperation) if the backend
///   does not support backup.
/// - [`Error::InvalidArgument`](crate::error::Error::InvalidArgument) if the target type is
///   not supported (e.g. device target for stream-based backends).
/// - [`Error::CommandFailed`](crate::error::Error::CommandFailed) if the underlying tool fails.
/// - [`Error::Io`](crate::error::Error::Io) if file I/O fails during block copy.
pub trait BackupExecutor: Backend {
    /// Execute a backup according to the given plan.
    fn backup_volume(&self, plan: &BackupPlan) -> Result<()>;
}

/// Where a backup that may send or copy from a temporary snapshot stands.
#[derive(Debug)]
pub enum TemporaryBackup {
    /// The temporary snapshot is being created.
    Creating,
    /// The send or copy runs; `created` says whether a temporary snapshot stands, to be
    /// deleted afterwards.
    Transferring { created: bool },
    /// The temporary snapshot is being deleted; `transfer` is what the send or copy gave.
    CleaningUp { transfer: Result<()> },
    /// The backup is over.
    Finished,
}

/// What the last step that was asked for gave.
#[derive(Debug)]
pub enum BackupEvent {
    /// The temporary snapshot was created, or creating it failed.
    Created(Result<()>),
    /// The send or copy is over.
    Transferred(Result<()>),
    /// The temporary snapshot was deleted, or deleting it failed.
    CleanedUp(Result<()>),
}

/// What the caller does next.
#[derive(Debug)]
pub enum BackupAction {
    /// Create the temporary snapshot.
    CreateSnapshot,
    /// Run the send or copy.
    Transfer,
    /// Delete the temporary snapshot.
    Cleanup,
    /// The backup is over with this result.
    Finish(Result<()>),
    /// The event does not belong to the current stage; nothing changes.
    Ignored,
}

/// The result of a backup from what its send or copy and its cleanup gave: the send or
/// copy's error wins; a cleanup error counts only where it is reported.
pub open spec fn backup_result(transfer: Result<()>, cleanup: Result<()>, report_cleanup: bool) -> Result<()> {
    match transfer {
        Err(e) => Err(e),
        Ok(()) => if report_cleanup {
            cleanup
        } else {
            Ok(())
        },
    }
}

/// The first stage of a backup and what to do first: create the temporary snapshot when
/// the plan asks for one, else run the send or copy with nothing to delete.
pub open spec fn backup_start(temporary: bool) -> (TemporaryBackup, BackupAction) {
    if temporary {
        (TemporaryBackup::Creating, BackupAction::CreateSnapshot)
    } else {
        (TemporaryBackup::Transferring { created: false }, BackupAction::Transfer)
    }
}

/// The next stage and action of a backup, given its stage and the event that the last
/// action gave. A failed creation ends the backup with its error; a created snapshot is
/// deleted after the send or copy, whatever that gave.
pub open spec fn backup_step(state: TemporaryBackup, event: BackupEvent, report_cleanup: bool) -> (
    TemporaryBackup,
    BackupAction,
) {
    match (state, event) {
        (TemporaryBackup::Creating, BackupEvent::Created(c)) => match c {
            Ok(()) => (TemporaryBackup::Transferring { created: true }, BackupAction::Transfer),
            Err(e) => (TemporaryBackup::Finished, BackupAction::Finish(Err(e))),
        },
        (TemporaryBackup::Transferring { created }, BackupEvent::Transferred(t)) => if created {
            (TemporaryBackup::CleaningUp { transfer: t }, BackupAction::Cleanup)
        } else {
            (TemporaryBackup::Finished, BackupAction::Finish(t))
        },
        (TemporaryBackup::CleaningUp { transfer }, BackupEvent::CleanedUp(c)) => (
            TemporaryBackup::Finished,
            BackupAction::Finish(backup_result(transfer, c, report_cleanup)),
        ),
        (s, _) => (s, BackupAction::Ignored),
    }
}

impl TemporaryBackup {
    /// The first stage and action of a backup; `temporary` says whether the plan asks
    /// for a temporary snapshot.
    pub fn begin(temporary: bool) -> (r: (TemporaryBackup, BackupAction))
        ensures
            r == backup_start(temporary),
    {
        if temporary {
            (TemporaryBackup::Creating, BackupAction::CreateSnapshot)
        } else {
            (TemporaryBackup::Transferring { created: false }, BackupAction::Transfer)
        }
    }

    /// The next stage and action, given the event that the last action gave;
    /// `report_cleanup` says whether a cleanup error fails a backup whose send or copy
    /// succeeded.
    pub fn step(self, event: BackupEvent, report_cleanup: bool) -> (r: (TemporaryBackup, BackupAction))
        ensures
            r == backup_step(self, event, report_cleanup),
    {
        match (self, event) {
            (TemporaryBackup::Creating, BackupEvent::Created(c)) => match c {
                Ok(()) => (TemporaryBackup::Transferring { created: true }, BackupAction::Transfer),
                Err(e) => (TemporaryBackup::Finished, BackupAction::Finish(Err(e))),
            },
            (TemporaryBackup::Transferring { created }, BackupEvent::Transferred(t)) => if created {
                (TemporaryBackup::CleaningUp { transfer: t }, BackupAction::Cleanup)
            } else {
                (TemporaryBackup::Finished, BackupAction::Finish(t))
            },
            (TemporaryBackup::CleaningUp { transfer }, BackupEvent::CleanedUp(c)) => {
                let result = match transfer {
                    Err(e) => Err(e),
                    Ok(()) => if report_cleanup {
                        c
                    } else {
                        Ok(())
                    },
                };
                (TemporaryBackup::Finished, BackupAction::Finish(result))
            },
            (s, _) => (s, BackupAction::Ignored),
        }
    }
}

/// A created temporary snapshot is always deleted: once it is created the send or copy
/// runs, and whatever that gives, the cleanup comes next.
pub proof fn lemma_created_snapshot_is_cleaned_up(transfer: Result<()>, report_cleanup: bool)
    ensures
        backup_step(TemporaryBackup::Creating, BackupEvent::Created(Ok(())), report_cleanup)
            == (TemporaryBackup::Transferring { created: true }, BackupAction::Transfer),
        backup_step(
            TemporaryBackup::Transferring { created: true },
            BackupEvent::Transferred(transfer),
            report_cleanup,
        ) == (TemporaryBackup::CleaningUp { transfer }, BackupAction::Cleanup),
{
}

/// The send or copy's error wins over the cleanup's: a backup whose send or copy failed
/// ends with that error, whatever the cleanup gave; where the cleanup error is not
/// reported, a successful send or copy ends the backup successfully.
pub proof fn lemma_transfer_error_wins(error: Error, cleanup: Result<()>, report_cleanup: bool)
    ensures
        backup_step(
            TemporaryBackup::CleaningUp { transfer: Err(error) },
            BackupEvent::CleanedUp(cleanup),
            report_cleanup,
        ).1 == BackupAction::Finish(Err(error)),
        backup_step(
            TemporaryBackup::CleaningUp { transfer: Ok(()) },
            BackupEvent::CleanedUp(cleanup),
            false,
        ).1 == BackupAction::Finish(Ok(())),
{
}

} // verus!
