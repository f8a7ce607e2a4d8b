use vpt_rs::platform::windows::{
    VssCopySource, WindowsBackend, vss_backup_outcome, vss_copy_source, vss_restore_copy,
    volume_path_for_device,
};
use vpt_rs::{
    BackupPlan, BackupSource, BackupTarget, Capability, Error, RestorePlan, SnapshotKind,
    SnapshotPolicy, SnapshotRef, VolumeRef,
};

#[test]
fn backend_has_expected_name() {
    let backend = WindowsBackend::new();
    assert_eq!(backend.backend_name(), "windows-vss");
}

#[test]
fn backend_has_expected_capabilities() {
    let backend = WindowsBackend::new();
    assert!(backend
        .capabilities()
        .contains(&Capability::CrashConsistentSnapshot));
    assert!(backend
        .capabilities()
        .contains(&Capability::ApplicationConsistentSnapshot));
    assert!(backend
        .capabilities()
        .contains(&Capability::BlockLevelBackup));
    assert!(backend
        .capabilities()
        .contains(&Capability::BlockLevelRestore));
    assert!(backend
        .capabilities()
        .contains(&Capability::DirectDeviceAccess));
}

#[test]
fn volume_path_converts_drive_letter() {
    assert_eq!(volume_path_for_device("C:"), r"\\.\C");
    assert_eq!(volume_path_for_device("C:\\"), r"\\.\C");
    assert_eq!(volume_path_for_device("D:"), r"\\.\D");
}

#[test]
fn volume_path_preserves_guid_path() {
    let guid = r"\\?\Volume{12345678-abcd-ef01-1122-334455667788}\";
    assert_eq!(volume_path_for_device(guid), guid.trim_end_matches('\\'));
}

#[test]
fn backup_copies_from_a_temporary_snapshot_when_asked() {
    let plan = BackupPlan {
        source: BackupSource::Volume(VolumeRef::new("C:")),
        target: BackupTarget::ImageFile("backup.img".to_string()),
        snapshot_policy: SnapshotPolicy::temporary(
            SnapshotKind::CrashConsistent,
            Some("nightly".to_string()),
            false,
        ),
        parent_snapshot: None,
        block_size: None,
    };
    match vss_copy_source(&plan) {
        VssCopySource::TemporarySnapshot { request } => {
            assert_eq!(request.source.id, "C:");
            assert_eq!(request.label.as_deref(), Some("nightly"));
            assert!(request.read_only);
        }
        other => panic!("unexpected copy source {other:?}"),
    }
}

#[test]
fn backup_copies_from_the_device_without_snapshot() {
    let plan = BackupPlan {
        source: BackupSource::Volume(VolumeRef::new("D:\\")),
        target: BackupTarget::ImageFile("backup.img".to_string()),
        snapshot_policy: SnapshotPolicy::disabled(),
        parent_snapshot: None,
        block_size: None,
    };
    match vss_copy_source(&plan) {
        VssCopySource::Direct { path } => assert_eq!(path, r"\\.\D"),
        other => panic!("unexpected copy source {other:?}"),
    }
    let existing = BackupPlan {
        source: BackupSource::Snapshot(SnapshotRef::new("{abc}")),
        ..plan
    };
    match vss_copy_source(&existing) {
        VssCopySource::ExistingSnapshot { snapshot_id } => assert_eq!(snapshot_id, "{abc}"),
        other => panic!("unexpected copy source {other:?}"),
    }
}

#[test]
fn backup_reports_the_copy_error_before_the_cleanup_error() {
    let copy = Err(Error::Message {
        message: "copy".to_string(),
    });
    let cleanup = Err(Error::Message {
        message: "cleanup".to_string(),
    });
    match vss_backup_outcome(copy, cleanup) {
        Err(Error::Message { message }) => assert_eq!(message, "copy"),
        other => panic!("unexpected outcome {other:?}"),
    }
    match vss_backup_outcome(
        Ok(()),
        Err(Error::Message {
            message: "cleanup".to_string(),
        }),
    ) {
        Err(Error::Message { message }) => assert_eq!(message, "cleanup"),
        other => panic!("unexpected outcome {other:?}"),
    }
    assert!(vss_backup_outcome(Ok(()), Ok(())).is_ok());
}

#[test]
fn restore_needs_force_and_an_image_file() {
    let plan = RestorePlan {
        source: BackupTarget::ImageFile("backup.img".to_string()),
        destination: VolumeRef::new("E:"),
        force: true,
        base_snapshot: None,
        block_size: None,
    };
    let (source, destination, block_size) = vss_restore_copy(&plan).unwrap();
    assert_eq!(source, "backup.img");
    assert_eq!(destination, r"\\.\E");
    assert_eq!(block_size, 4 * 1024 * 1024);

    let unforced = RestorePlan {
        force: false,
        ..plan.clone()
    };
    match vss_restore_copy(&unforced) {
        Err(Error::InvalidArgument { message }) => assert_eq!(
            message,
            "vss restore requires `--force` because it overwrites the destination volume"
        ),
        other => panic!("unexpected result {other:?}"),
    }

    let device = RestorePlan {
        source: BackupTarget::Device("/dev/sdb".to_string()),
        ..plan
    };
    assert!(matches!(
        vss_restore_copy(&device),
        Err(Error::InvalidArgument { .. })
    ));
}
