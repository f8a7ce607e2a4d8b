use vpt_rs::backup::{BackupAction, BackupEvent, TemporaryBackup};
use vpt_rs::Error;

fn failure(message: &str) -> Error {
    Error::Message {
        message: message.to_string(),
    }
}

#[test]
fn created_snapshot_is_deleted_after_a_failed_send() {
    let (state, action) = TemporaryBackup::begin(true);
    assert!(matches!(action, BackupAction::CreateSnapshot));
    let (state, action) = state.step(BackupEvent::Created(Ok(())), false);
    assert!(matches!(action, BackupAction::Transfer));
    let (state, action) = state.step(BackupEvent::Transferred(Err(failure("send failed"))), false);
    assert!(matches!(action, BackupAction::Cleanup));
    let (state, action) = state.step(BackupEvent::CleanedUp(Err(failure("delete failed"))), true);
    assert!(matches!(state, TemporaryBackup::Finished));
    assert!(
        matches!(action, BackupAction::Finish(Err(Error::Message { message })) if message == "send failed")
    );
}

#[test]
fn failed_snapshot_creation_ends_the_backup() {
    let (state, _) = TemporaryBackup::begin(true);
    let (state, action) = state.step(BackupEvent::Created(Err(failure("no snapshot"))), false);
    assert!(matches!(state, TemporaryBackup::Finished));
    assert!(
        matches!(action, BackupAction::Finish(Err(Error::Message { message })) if message == "no snapshot")
    );
}

#[test]
fn backup_without_snapshot_returns_the_send_result() {
    let (state, action) = TemporaryBackup::begin(false);
    assert!(matches!(action, BackupAction::Transfer));
    let (_, action) = state.step(BackupEvent::Transferred(Ok(())), true);
    assert!(matches!(action, BackupAction::Finish(Ok(()))));
}

#[test]
fn cleanup_error_counts_only_where_reported() {
    let reported = TemporaryBackup::CleaningUp { transfer: Ok(()) }
        .step(BackupEvent::CleanedUp(Err(failure("delete failed"))), true);
    assert!(
        matches!(reported.1, BackupAction::Finish(Err(Error::Message { message })) if message == "delete failed")
    );
    let ignored = TemporaryBackup::CleaningUp { transfer: Ok(()) }
        .step(BackupEvent::CleanedUp(Err(failure("delete failed"))), false);
    assert!(matches!(ignored.1, BackupAction::Finish(Ok(()))));
}

#[test]
fn events_of_another_stage_are_ignored() {
    let (state, action) = TemporaryBackup::Creating.step(BackupEvent::Transferred(Ok(())), false);
    assert!(matches!(state, TemporaryBackup::Creating));
    assert!(matches!(action, BackupAction::Ignored));
}
