use vpt_rs::platform::linux::BtrfsBackend;
use vpt_rs::{
    BackupPlan, BackupSource, BackupTarget, Error, RestorePlan, SnapshotKind, SnapshotPolicy,
    SnapshotRef, SnapshotRequest, VolumeRef,
};

// The plans check that their paths exist, so these tests use paths that exist on every
// Linux machine: `/tmp` as the subvolume (its parent `/` holds `.vb-snapshots`) and
// `/dev/null` as a stream file.

#[test]
fn create_plan_uses_hidden_snapshot_directory() {
    let backend = BtrfsBackend::new();
    let plan = backend
        .plan_create_snapshot(&SnapshotRequest {
            source: VolumeRef::new("/tmp"),
            kind: SnapshotKind::CrashConsistent,
            label: Some("nightly backup".to_string()),
            read_only: true,
        })
        .unwrap();

    assert_eq!(plan.snapshot_path, "/.vb-snapshots/nightly-backup");
    assert_eq!(
        plan.command.args,
        vec![
            "subvolume",
            "snapshot",
            "-r",
            "/tmp",
            "/.vb-snapshots/nightly-backup",
        ]
    );
}

#[test]
fn btrfs_application_consistent_requests_are_rejected() {
    let backend = BtrfsBackend::new();
    let error = backend
        .plan_create_snapshot(&SnapshotRequest {
            source: VolumeRef::new("/tmp"),
            kind: SnapshotKind::ApplicationConsistent,
            label: None,
            read_only: true,
        })
        .unwrap_err();

    assert!(matches!(error, Error::MissingCapability { .. }));
}

#[test]
fn list_output_parses_paths() {
    let backend = BtrfsBackend::new();
    let source = VolumeRef::new("/mnt/data/subvol");
    let snapshots = backend.parse_list_output(
        &source,
        br#"ID 258 gen 301 top level 5 path .vb-snapshots/snap-1
ID 259 gen 302 top level 5 path /mnt/data/.vb-snapshots/snap-2
"#,
    );

    assert_eq!(snapshots.len(), 2);
    assert_eq!(
        snapshots[0].path_hint.as_ref().unwrap(),
        "/mnt/data/.vb-snapshots/snap-1"
    );
    assert_eq!(
        snapshots[1].path_hint.as_ref().unwrap(),
        "/mnt/data/.vb-snapshots/snap-2"
    );
}

#[test]
fn backup_plan_uses_btrfs_send_to_image_file() {
    let backend = BtrfsBackend::new();
    let target = "/tmp/backup.stream".to_string();

    let plan = backend
        .plan_backup(&BackupPlan {
            source: BackupSource::Volume(VolumeRef::new("/tmp")),
            target: BackupTarget::ImageFile(target.clone()),
            snapshot_policy: SnapshotPolicy::temporary(
                SnapshotKind::CrashConsistent,
                Some("tmp".to_string()),
                true,
            ),
            parent_snapshot: None,
            block_size: None,
        })
        .unwrap();

    assert_eq!(plan.source, "/.vb-snapshots/tmp");
    assert_eq!(plan.target, target);
    assert_eq!(plan.command.args, vec!["send", plan.source.as_str()]);
    assert!(plan.temporary_snapshot.is_some());
}

#[test]
fn btrfs_backup_plan_uses_parent_snapshot_for_incremental_send() {
    let backend = BtrfsBackend::new();
    let source = "/tmp";
    let parent = "/.vb-snapshots/base";

    let plan = backend
        .plan_backup(&BackupPlan {
            source: BackupSource::Snapshot(
                SnapshotRef::new(source).with_origin(VolumeRef::new(source)),
            ),
            target: BackupTarget::ImageFile("/tmp/backup.stream".to_string()),
            snapshot_policy: SnapshotPolicy::disabled(),
            parent_snapshot: Some(SnapshotRef::new(parent).with_origin(VolumeRef::new(source))),
            block_size: None,
        })
        .unwrap();

    assert_eq!(plan.command.args, vec!["send", "-p", parent, source]);
    assert_eq!(plan.parent, Some(parent.to_string()));
}

#[test]
fn restore_plan_uses_btrfs_receive_from_stream() {
    let backend = BtrfsBackend::new();
    let stream = "/dev/null".to_string();
    let destination = "/tmp".to_string();

    let plan = backend
        .plan_restore(&RestorePlan {
            source: BackupTarget::ImageFile(stream.clone()),
            destination: VolumeRef::new(&destination),
            force: false,
            base_snapshot: None,
            block_size: None,
        })
        .unwrap();

    assert_eq!(plan.stream, stream);
    assert_eq!(plan.destination_dir, destination);
    assert_eq!(plan.command.args, vec!["receive", plan.destination_dir.as_str()]);
}

#[test]
fn create_plan_rejects_relative_subvolume_paths() {
    let backend = BtrfsBackend::new();
    let error = backend
        .plan_create_snapshot(&SnapshotRequest {
            source: VolumeRef::new("data/subvol"),
            kind: SnapshotKind::CrashConsistent,
            label: None,
            read_only: true,
        })
        .unwrap_err();

    assert!(matches!(error, Error::InvalidArgument { .. }));
}

#[test]
fn delete_plan_deletes_the_subvolume() {
    let backend = BtrfsBackend::new();
    let command = backend
        .plan_delete_snapshot(&vpt_rs::SnapshotHandle {
            id: "/.vb-snapshots/base".to_string(),
            source: None,
        })
        .unwrap();
    assert_eq!(command.program, "btrfs");
    assert_eq!(command.args, vec!["subvolume", "delete", "/.vb-snapshots/base"]);
}

#[test]
fn deleting_a_created_btrfs_snapshot_removes_it() {
    let backend = BtrfsBackend::new();
    let request = SnapshotRequest {
        source: VolumeRef::new("/tmp"),
        kind: SnapshotKind::CrashConsistent,
        label: None,
        read_only: true,
    };
    let plan = backend.plan_create_snapshot(&request).unwrap();
    let info = backend.created_snapshot_info(&request, &plan);
    let command = backend.plan_delete_snapshot(&info.handle).unwrap();

    assert!(plan.snapshot_path.starts_with("/.vb-snapshots/tmp-"));
    assert_eq!(plan.command.args.last(), Some(&plan.snapshot_path));
    assert_eq!(command.program, "btrfs");
    assert_eq!(
        command.args,
        vec!["subvolume".to_string(), "delete".to_string(), plan.snapshot_path.clone()]
    );
}

#[test]
fn temporary_snapshot_backup_sends_the_created_snapshot_path() {
    let backend = BtrfsBackend::new();
    let send = backend
        .plan_backup(&BackupPlan {
            source: BackupSource::Volume(VolumeRef::new("/tmp")),
            target: BackupTarget::ImageFile("/tmp/backup.stream".to_string()),
            snapshot_policy: SnapshotPolicy::temporary(
                SnapshotKind::CrashConsistent,
                Some("tmp".to_string()),
                true,
            ),
            parent_snapshot: None,
            block_size: None,
        })
        .unwrap();
    let created = backend
        .plan_create_snapshot(&SnapshotRequest {
            source: VolumeRef::new("/tmp"),
            kind: SnapshotKind::CrashConsistent,
            label: Some("tmp".to_string()),
            read_only: true,
        })
        .unwrap();

    let temporary = send.temporary_snapshot.as_ref().unwrap();
    assert_eq!(temporary.snapshot_path, created.snapshot_path);
    assert_eq!(send.source, created.snapshot_path);
    assert_eq!(send.command.args, vec!["send".to_string(), created.snapshot_path.clone()]);
    assert_eq!(send.target, "/tmp/backup.stream");
}

#[test]
fn temporary_snapshot_backup_given_the_disk_answers() {
    let backend = BtrfsBackend::new();
    let plan = BackupPlan {
        source: BackupSource::Volume(VolumeRef::new("/data/subvol")),
        target: BackupTarget::ImageFile("/backups/out.stream".to_string()),
        snapshot_policy: SnapshotPolicy::temporary(SnapshotKind::CrashConsistent, None, true),
        parent_snapshot: None,
        block_size: None,
    };
    let send = backend.plan_backup_with(&plan, true, 42).unwrap();
    let created = backend
        .plan_create_snapshot_with(
            &SnapshotRequest {
                source: VolumeRef::new("/data/subvol"),
                kind: SnapshotKind::CrashConsistent,
                label: None,
                read_only: true,
            },
            true,
            42,
        )
        .unwrap();

    assert_eq!(created.snapshot_path, "/data/.vb-snapshots/subvol-42");
    assert_eq!(send.source, created.snapshot_path);
    assert_eq!(send.temporary_snapshot.as_ref().unwrap().snapshot_path, created.snapshot_path);
    assert_eq!(send.command.args, vec!["send", "/data/.vb-snapshots/subvol-42"]);
    assert_eq!(send.target, "/backups/out.stream");

    let missing = backend.plan_backup_with(&plan, false, 42).unwrap_err();
    assert!(matches!(missing, Error::MissingPath { path } if path == "/data/subvol"));
}
