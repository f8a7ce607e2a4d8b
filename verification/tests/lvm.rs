use vpt_rs::platform::linux::LvmBackend;
use vpt_rs::platform::linux::lvm::LvmVolumeRef;
use vpt_rs::{
    BackupPlan, BackupSource, BackupTarget, Error, RestorePlan, SnapshotKind, SnapshotPolicy,
    SnapshotRef, SnapshotRequest, VolumeRef,
};

#[test]
fn parses_standard_lvm_volume_path() {
    let backend = LvmBackend::new();
    let volume = backend
        .parse_volume_ref(&VolumeRef::new("/dev/vg0/data"))
        .unwrap();

    assert_eq!(volume.vg_name, "vg0");
    assert_eq!(volume.lv_name, "data");
    assert_eq!(volume.lv_path, "/dev/vg0/data");
}

#[test]
fn create_plan_uses_lvcreate_snapshot_commands() {
    let backend = LvmBackend::new();
    let plan = backend
        .plan_create_snapshot(&SnapshotRequest {
            source: VolumeRef::new("/dev/vg0/data"),
            kind: SnapshotKind::CrashConsistent,
            label: Some("nightly backup".to_string()),
            read_only: true,
        })
        .unwrap();

    assert_eq!(plan.snapshot_name, "nightly-backup");
    assert_eq!(plan.snapshot_path, "/dev/vg0/nightly-backup");
    assert_eq!(plan.commands.len(), 2);
    assert_eq!(
        plan.commands[0].args,
        vec![
            "--snapshot",
            "--extents",
            "20%ORIGIN",
            "--name",
            "nightly-backup",
            "/dev/vg0/data",
        ]
    );
    assert_eq!(
        plan.commands[1].args,
        vec!["--permission", "r", "/dev/vg0/nightly-backup"]
    );
}

#[test]
fn parse_list_output_filters_origin_snapshots() {
    let backend = LvmBackend::new();
    let source = LvmVolumeRef {
        vg_name: "vg0".to_string(),
        lv_name: "data".to_string(),
        lv_path: "/dev/vg0/data".to_string(),
    };

    let snapshots = backend.parse_list_output(
        &source,
        br#"
snap1|data|/dev/vg0/snap1|swi-a-s---
other|other-origin|/dev/vg0/other|swi-a-s---
snap2|data|/dev/vg0/snap2|Swi-a-r---
"#,
    );

    assert_eq!(snapshots.len(), 2);
    assert_eq!(snapshots[0].handle.id, "/dev/vg0/snap1");
    assert!(!snapshots[0].read_only);
    assert_eq!(snapshots[1].handle.id, "/dev/vg0/snap2");
    assert!(snapshots[1].read_only);
}

#[test]
fn lvm_application_consistent_requests_are_rejected() {
    let backend = LvmBackend::new();
    let error = backend
        .plan_create_snapshot(&SnapshotRequest {
            source: VolumeRef::new("/dev/vg0/data"),
            kind: SnapshotKind::ApplicationConsistent,
            label: None,
            read_only: true,
        })
        .unwrap_err();

    assert!(matches!(error, Error::MissingCapability { .. }));
}

#[test]
fn writable_snapshot_plan_has_one_command() {
    let backend = LvmBackend::new();
    let plan = backend
        .plan_create_snapshot(&SnapshotRequest {
            source: VolumeRef::new("/dev/vg0/data"),
            kind: SnapshotKind::CrashConsistent,
            label: Some("rw".to_string()),
            read_only: false,
        })
        .unwrap();

    assert_eq!(plan.commands.len(), 1);
    assert!(!plan.read_only);
}

#[test]
fn rejects_volume_paths_outside_dev() {
    let backend = LvmBackend::new();
    assert!(backend.parse_volume_ref(&VolumeRef::new("vg0/data")).is_err());
    assert!(backend.parse_volume_ref(&VolumeRef::new("   ")).is_err());
}

#[test]
fn deleting_a_created_lvm_snapshot_removes_it() {
    let backend = LvmBackend::new();
    let request = SnapshotRequest {
        source: VolumeRef::new("/dev/vg0/data"),
        kind: SnapshotKind::CrashConsistent,
        label: Some("weekly".to_string()),
        read_only: false,
    };
    let plan = backend.plan_create_snapshot(&request).unwrap();
    let info = backend.created_snapshot_info(&request, &plan);
    let command = backend.plan_delete_snapshot(&info.handle).unwrap();

    assert_eq!(plan.commands[0].args[4], "weekly");
    assert_eq!(plan.snapshot_path, "/dev/vg0/weekly");
    assert_eq!(command.program, "lvremove");
    assert_eq!(command.args, vec!["--yes", "/dev/vg0/weekly"]);
}

#[test]
fn block_backup_copies_a_temporary_snapshot_to_the_image_file() {
    let backend = LvmBackend::new();
    let copy = backend
        .plan_backup_copy(&BackupPlan {
            source: BackupSource::Volume(VolumeRef::new("/dev/vg0/data")),
            target: BackupTarget::ImageFile("/backups/data.img".to_string()),
            snapshot_policy: SnapshotPolicy::temporary(
                SnapshotKind::CrashConsistent,
                Some("backup".to_string()),
                true,
            ),
            parent_snapshot: None,
            block_size: Some(1024),
        })
        .unwrap();
    assert_eq!(copy.source, "/dev/vg0/backup");
    assert_eq!(copy.target, "/backups/data.img");
    assert_eq!(copy.block_size, 1024);
    let snapshot = copy.temporary_snapshot.as_ref().unwrap();
    assert_eq!(snapshot.snapshot_path, "/dev/vg0/backup");
    let cleanup = backend.cleanup_command(snapshot);
    assert_eq!(cleanup.program, "lvremove");
    assert_eq!(cleanup.args, vec!["--yes", "/dev/vg0/backup"]);
}

#[test]
fn block_backup_copies_the_volume_or_snapshot_directly() {
    let backend = LvmBackend::new();
    let direct = backend
        .plan_backup_copy(&BackupPlan {
            source: BackupSource::Volume(VolumeRef::new("/dev/vg0/data")),
            target: BackupTarget::Device("/dev/sdb".to_string()),
            snapshot_policy: SnapshotPolicy::disabled(),
            parent_snapshot: None,
            block_size: None,
        })
        .unwrap();
    assert_eq!(direct.source, "/dev/vg0/data");
    assert_eq!(direct.target, "/dev/sdb");
    assert_eq!(direct.block_size, 4 * 1024 * 1024);
    assert!(direct.temporary_snapshot.is_none());

    let from_snapshot = backend
        .plan_backup_copy(&BackupPlan {
            source: BackupSource::Snapshot(SnapshotRef::new("/dev/vg0/data-snap")),
            target: BackupTarget::ImageFile("/backups/snap.img".to_string()),
            snapshot_policy: SnapshotPolicy::disabled(),
            parent_snapshot: None,
            block_size: None,
        })
        .unwrap();
    assert_eq!(from_snapshot.source, "/dev/vg0/data-snap");

    let refused = backend
        .plan_backup_copy(&BackupPlan {
            source: BackupSource::Volume(VolumeRef::new("data")),
            target: BackupTarget::ImageFile("/backups/data.img".to_string()),
            snapshot_policy: SnapshotPolicy::disabled(),
            parent_snapshot: None,
            block_size: None,
        })
        .unwrap_err();
    assert!(matches!(refused, Error::InvalidArgument { .. }));
}

#[test]
fn block_restore_needs_force_and_writes_the_volume() {
    let backend = LvmBackend::new();
    let plan = |force: bool| RestorePlan {
        source: BackupTarget::ImageFile("/backups/data.img".to_string()),
        destination: VolumeRef::new("/dev/vg0/data"),
        force,
        base_snapshot: None,
        block_size: Some(512),
    };
    let refused = backend.plan_restore_copy(&plan(false)).unwrap_err();
    assert!(matches!(refused, Error::InvalidArgument { message } if message.contains("--force")));
    let (source, destination, block_size) = backend.plan_restore_copy(&plan(true)).unwrap();
    assert_eq!(source, "/backups/data.img");
    assert_eq!(destination, "/dev/vg0/data");
    assert_eq!(block_size, 512);
}
