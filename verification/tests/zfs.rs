use vpt_rs::platform::linux::ZfsBackend;
use vpt_rs::platform::linux::zfs::ZfsDatasetRef;
use vpt_rs::{
    BackupPlan, BackupSource, BackupTarget, Error, RestorePlan, SnapshotKind, SnapshotPolicy,
    SnapshotRef, SnapshotRequest, VolumeRef,
};

#[test]
fn parses_dataset_name_without_mount_path() {
    let backend = ZfsBackend::new();
    let dataset = backend
        .parse_dataset_ref(&VolumeRef::new("tank/data"))
        .unwrap();

    assert_eq!(dataset.name, "tank/data");
    assert_eq!(dataset.mount_point, None);
}

#[test]
fn parses_mount_path_as_dataset_reference() {
    let backend = ZfsBackend::new();
    let dataset = backend
        .parse_dataset_ref(&VolumeRef::new("/tank/data"))
        .unwrap();

    assert_eq!(dataset.name, "/tank/data");
    assert_eq!(dataset.mount_point, Some("/tank/data".to_string()));
}

#[test]
fn create_plan_uses_zfs_snapshot_command() {
    let backend = ZfsBackend::new();
    let plan = backend
        .plan_create_snapshot(&SnapshotRequest {
            source: VolumeRef::new("tank/data"),
            kind: SnapshotKind::CrashConsistent,
            label: Some("nightly backup".to_string()),
            read_only: true,
        })
        .unwrap();

    assert_eq!(plan.snapshot_name, "nightly-backup");
    assert_eq!(plan.snapshot_id, "tank/data@nightly-backup");
    assert_eq!(
        plan.command.args,
        vec!["snapshot", "-r", "tank/data@nightly-backup"]
    );
}

#[test]
fn parse_list_output_filters_matching_dataset_snapshots() {
    let backend = ZfsBackend::new();
    let dataset = ZfsDatasetRef {
        name: "tank/data".to_string(),
        mount_point: None,
    };

    let snapshots = backend.parse_list_output(
        &dataset,
        b"tank/data@snap1\t-\ntank/other@snapx\t-\ntank/data@snap2\t/mnt/tank/data/.zfs/snapshot/snap2\n",
    );

    assert_eq!(snapshots.len(), 2);
    assert_eq!(snapshots[0].handle.id, "tank/data@snap1");
    assert_eq!(snapshots[0].path_hint, None);
    assert_eq!(snapshots[1].handle.id, "tank/data@snap2");
    assert_eq!(
        snapshots[1].path_hint,
        Some("/mnt/tank/data/.zfs/snapshot/snap2".to_string())
    );
}

#[test]
fn zfs_application_consistent_requests_are_rejected() {
    let backend = ZfsBackend::new();
    let error = backend
        .plan_create_snapshot(&SnapshotRequest {
            source: VolumeRef::new("tank/data"),
            kind: SnapshotKind::ApplicationConsistent,
            label: None,
            read_only: true,
        })
        .unwrap_err();

    assert!(matches!(error, Error::MissingCapability { .. }));
}

#[test]
fn backup_plan_uses_zfs_send_with_snapshot_source() {
    let backend = ZfsBackend::new();
    let plan = backend
        .plan_backup(&BackupPlan {
            source: BackupSource::Snapshot(SnapshotRef::new("tank/data@snap1")),
            target: BackupTarget::ImageFile("/tmp/out.zfs".to_string()),
            snapshot_policy: SnapshotPolicy::disabled(),
            parent_snapshot: None,
            block_size: None,
        })
        .unwrap();

    assert_eq!(plan.snapshot.snapshot_id, "tank/data@snap1");
    assert_eq!(plan.command.args, vec!["send", "tank/data@snap1"]);
}

#[test]
fn backup_plan_rejects_non_snapshot_source() {
    let backend = ZfsBackend::new();
    let error = backend
        .plan_backup(&BackupPlan {
            source: BackupSource::Volume(VolumeRef::new("tank/data")),
            target: BackupTarget::ImageFile("/tmp/out.zfs".to_string()),
            snapshot_policy: SnapshotPolicy::disabled(),
            parent_snapshot: None,
            block_size: None,
        })
        .unwrap_err();

    assert!(matches!(error, Error::InvalidArgument { .. }));
}

#[test]
fn zfs_backup_plan_uses_parent_snapshot_for_incremental_send() {
    let backend = ZfsBackend::new();
    let plan = backend
        .plan_backup(&BackupPlan {
            source: BackupSource::Snapshot(
                SnapshotRef::new("tank/data@snap2").with_origin(VolumeRef::new("tank/data")),
            ),
            target: BackupTarget::ImageFile("/tmp/out.zfs".to_string()),
            snapshot_policy: SnapshotPolicy::disabled(),
            parent_snapshot: Some(
                SnapshotRef::new("tank/data@snap1").with_origin(VolumeRef::new("tank/data")),
            ),
            block_size: None,
        })
        .unwrap();

    assert_eq!(
        plan.command.args,
        vec!["send", "-i", "tank/data@snap1", "tank/data@snap2"]
    );
    assert_eq!(
        plan.parent_snapshot
            .as_ref()
            .map(|snapshot| snapshot.snapshot_id.as_str()),
        Some("tank/data@snap1")
    );
}

// `/dev/null` stands for the stream file: it exists on every Linux machine.

#[test]
fn restore_plan_uses_zfs_receive_dataset_destination() {
    let backend = ZfsBackend::new();
    let stream = "/dev/null".to_string();

    let plan = backend
        .plan_restore(&RestorePlan {
            source: BackupTarget::ImageFile(stream.clone()),
            destination: VolumeRef::new("tank/restore"),
            force: true,
            base_snapshot: None,
            block_size: None,
        })
        .unwrap();

    assert_eq!(plan.stream, stream);
    assert_eq!(plan.destination_dataset, "tank/restore");
    assert_eq!(plan.command.args, vec!["receive", "-F", "tank/restore"]);
}

#[test]
fn restore_plan_rejects_mount_path_destination() {
    let backend = ZfsBackend::new();
    let error = backend
        .plan_restore(&RestorePlan {
            source: BackupTarget::ImageFile("/dev/null".to_string()),
            destination: VolumeRef::new("/tank/restore"),
            force: false,
            base_snapshot: None,
            block_size: None,
        })
        .unwrap_err();

    assert!(matches!(error, Error::InvalidArgument { .. }));
}

#[test]
fn restore_plan_without_force_does_not_overwrite() {
    let backend = ZfsBackend::new();
    let plan = backend
        .plan_restore(&RestorePlan {
            source: BackupTarget::ImageFile("/dev/null".to_string()),
            destination: VolumeRef::new("tank/restore"),
            force: false,
            base_snapshot: None,
            block_size: None,
        })
        .unwrap();

    assert_eq!(plan.command.args, vec!["receive", "tank/restore"]);
}

#[test]
fn snapshot_references_name_dataset_and_snapshot() {
    let backend = ZfsBackend::new();
    let snapshot = backend
        .parse_snapshot_ref(&VolumeRef::new(" tank/data@snap1 "))
        .unwrap();
    assert_eq!(snapshot.dataset, "tank/data");
    assert_eq!(snapshot.snapshot, "snap1");
    assert_eq!(snapshot.snapshot_id, "tank/data@snap1");
    assert!(matches!(
        backend.parse_snapshot_ref(&VolumeRef::new("tank/data")),
        Err(Error::InvalidArgument { .. })
    ));
    assert!(matches!(
        backend.parse_snapshot_ref(&VolumeRef::new("@snap")),
        Err(Error::InvalidArgument { .. })
    ));
}

#[test]
fn deleting_a_created_zfs_snapshot_destroys_it() {
    let backend = ZfsBackend::new();
    let request = SnapshotRequest {
        source: VolumeRef::new("tank/data"),
        kind: SnapshotKind::CrashConsistent,
        label: None,
        read_only: false,
    };
    let plan = backend.plan_create_snapshot(&request).unwrap();
    let info = backend.created_snapshot_info(&request, &plan);
    let command = backend.plan_delete_snapshot(&info.handle).unwrap();

    assert!(plan.snapshot_id.starts_with("tank/data@snapshot-"));
    assert_eq!(plan.command.args.last(), Some(&plan.snapshot_id));
    assert_eq!(command.program, "zfs");
    assert_eq!(command.args, vec!["destroy".to_string(), plan.snapshot_id.clone()]);
}

#[test]
fn temporary_snapshot_backup_sends_the_created_snapshot() {
    let backend = ZfsBackend::new();
    let send = backend
        .plan_backup(&BackupPlan {
            source: BackupSource::Volume(VolumeRef::new("tank/data")),
            target: BackupTarget::ImageFile("/tmp/out.zfs".to_string()),
            snapshot_policy: SnapshotPolicy::temporary(
                SnapshotKind::CrashConsistent,
                Some("tmp".to_string()),
                true,
            ),
            parent_snapshot: None,
            block_size: None,
        })
        .unwrap();
    let created = backend
        .plan_create_snapshot(&SnapshotRequest {
            source: VolumeRef::new("tank/data"),
            kind: SnapshotKind::CrashConsistent,
            label: Some("tmp".to_string()),
            read_only: true,
        })
        .unwrap();

    let temporary = send.temporary_snapshot.as_ref().unwrap();
    assert_eq!(temporary.snapshot_id, created.snapshot_id);
    assert_eq!(send.snapshot.snapshot_id, "tank/data@tmp");
    assert_eq!(send.snapshot.dataset, "tank/data");
    assert_eq!(send.snapshot.snapshot, "tmp");
    assert_eq!(send.command.args, vec!["send", "tank/data@tmp"]);
    assert_eq!(send.target, "/tmp/out.zfs");
}
