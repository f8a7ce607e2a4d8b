use vpt_rs::cli::{
    Invocation, asks_for_usage, parse_backup_request, parse_block_size, parse_close_request,
    parse_create_request, parse_delete_arguments, parse_list_arguments, parse_mount_request,
    parse_open_request, parse_provider_flag, parse_restore_request, parse_unmount_request,
};
use vpt_rs::{BackupSource, Error, MountMode, SnapshotKind, SnapshotPolicy};

fn args(words: &[&str]) -> Vec<String> {
    words.iter().map(|w| w.to_string()).collect()
}

fn message(error: Error) -> String {
    match error {
        Error::InvalidArgument { message } => message,
        other => panic!("unexpected error {other:?}"),
    }
}

#[test]
fn block_sizes_take_unit_suffixes() {
    assert_eq!(parse_block_size("4096").unwrap(), 4096);
    assert_eq!(parse_block_size(" 64K ").unwrap(), 64 * 1024);
    assert_eq!(parse_block_size("4m").unwrap(), 4 * 1024 * 1024);
    assert_eq!(parse_block_size("1G").unwrap(), 1024 * 1024 * 1024);
    assert_eq!(parse_block_size("+8").unwrap(), 8);
}

#[test]
fn block_sizes_are_checked() {
    assert_eq!(message(parse_block_size("  ").unwrap_err()), "block size must not be empty");
    assert_eq!(
        message(parse_block_size("12Q").unwrap_err()),
        "invalid block size `12Q`; expected a number with optional K/M/G suffix"
    );
    assert_eq!(
        message(parse_block_size("0K").unwrap_err()),
        "block size must be greater than zero"
    );
    assert_eq!(
        message(parse_block_size("K").unwrap_err()),
        "invalid block size `K`; expected a number with optional K/M/G suffix"
    );
    assert_eq!(
        message(parse_block_size("18446744073709551615K").unwrap_err()),
        "block size `18446744073709551615K` overflows"
    );
}

#[test]
fn create_arguments() {
    let (provider, request) = parse_create_request(args(&[
        "/mnt/data",
        "--provider",
        "btrfs",
        "--kind",
        "app",
        "--label",
        "nightly",
        "--read-write",
    ]))
    .unwrap();
    assert_eq!(provider.as_deref(), Some("btrfs"));
    assert_eq!(request.source.id, "/mnt/data");
    assert_eq!(request.kind, SnapshotKind::ApplicationConsistent);
    assert_eq!(request.label.as_deref(), Some("nightly"));
    assert!(!request.read_only);

    let (provider, request) = parse_create_request(args(&["/mnt/data"])).unwrap();
    assert_eq!(provider, None);
    assert_eq!(request.kind, SnapshotKind::CrashConsistent);
    assert!(request.read_only);
}

#[test]
fn create_arguments_are_checked_in_order() {
    assert_eq!(
        message(parse_create_request(args(&[])).unwrap_err()),
        "missing source volume for `create`"
    );
    assert_eq!(
        message(parse_create_request(args(&["--kind"])).unwrap_err()),
        "missing value after `--kind`"
    );
    assert_eq!(
        message(parse_create_request(args(&["--kind", "bogus", "a", "b"])).unwrap_err()),
        "unknown snapshot kind `bogus`; expected `crash` or `application`"
    );
    assert_eq!(
        message(parse_create_request(args(&["a", "b", "--kind", "bogus"])).unwrap_err()),
        "unexpected argument `b`"
    );
}

#[test]
fn backup_arguments() {
    let request = parse_backup_request(args(&[
        "/mnt/data",
        "--output",
        "backup.stream",
        "--snapshot-label",
        "tmp",
        "--block-size",
        "1M",
        "--parent-snapshot",
        "/mnt/.vb-snapshots/base",
    ]))
    .unwrap();
    assert_eq!(request.output, "backup.stream");
    assert_eq!(request.block_size, Some(1024 * 1024));
    match &request.source {
        BackupSource::Volume(volume) => assert_eq!(volume.id, "/mnt/data"),
        other => panic!("unexpected source {other:?}"),
    }
    match &request.snapshot_policy {
        SnapshotPolicy::Temporary {
            kind,
            label,
            read_only,
        } => {
            assert_eq!(*kind, SnapshotKind::CrashConsistent);
            assert_eq!(label.as_deref(), Some("tmp"));
            assert!(*read_only);
        }
        other => panic!("unexpected policy {other:?}"),
    }
    assert_eq!(
        request.parent_snapshot.as_ref().unwrap().id,
        "/mnt/.vb-snapshots/base"
    );

    let request = parse_backup_request(args(&[
        "tank/data@snap",
        "--snapshot-source",
        "--no-snapshot",
        "--output",
        "out.zfs",
    ]))
    .unwrap();
    match &request.source {
        BackupSource::Snapshot(snapshot) => {
            assert_eq!(snapshot.id, "tank/data@snap");
            assert_eq!(snapshot.origin.as_ref().unwrap().id, "tank/data@snap");
        }
        other => panic!("unexpected source {other:?}"),
    }
    assert_eq!(request.snapshot_policy, SnapshotPolicy::Disabled);
    assert_eq!(request.block_size, None);
}

#[test]
fn backup_arguments_need_source_then_output() {
    assert_eq!(
        message(parse_backup_request(args(&["--output", "x"])).unwrap_err()),
        "missing source volume"
    );
    assert_eq!(
        message(parse_backup_request(args(&["/mnt/data"])).unwrap_err()),
        "missing `--output <path>`"
    );
    assert_eq!(
        message(parse_backup_request(args(&["/mnt/data", "--block-size", "0"])).unwrap_err()),
        "block size must be greater than zero"
    );
}

#[test]
fn restore_arguments() {
    let request = parse_restore_request(args(&[
        "/mnt/restore",
        "--input",
        "backup.stream",
        "--force",
        "--base-snapshot",
        "base",
        "--block-size",
        "2K",
    ]))
    .unwrap();
    assert_eq!(request.input, "backup.stream");
    assert_eq!(request.destination.id, "/mnt/restore");
    assert!(request.force);
    assert_eq!(request.base_snapshot.unwrap().id, "base");
    assert_eq!(request.block_size, Some(2048));

    assert_eq!(
        message(parse_restore_request(args(&[])).unwrap_err()),
        "missing `--input <path>`"
    );
    assert_eq!(
        message(parse_restore_request(args(&["--input", "x"])).unwrap_err()),
        "missing destination volume/directory"
    );
}

#[test]
fn snapshot_list_delete_and_capabilities_arguments() {
    assert_eq!(
        parse_provider_flag(args(&["--provider", "zfs"])).unwrap().as_deref(),
        Some("zfs")
    );
    assert_eq!(
        message(parse_provider_flag(args(&["zfs"])).unwrap_err()),
        "unexpected argument `zfs`"
    );
    let (provider, volume) = parse_list_arguments(args(&["tank/data", "--provider", "zfs"])).unwrap();
    assert_eq!(provider.as_deref(), Some("zfs"));
    assert_eq!(volume, "tank/data");
    assert_eq!(
        message(parse_list_arguments(args(&[])).unwrap_err()),
        "missing volume id for `list`"
    );
    let (_, id) = parse_delete_arguments(args(&["tank/data@snap"])).unwrap();
    assert_eq!(id, "tank/data@snap");
    assert_eq!(
        message(parse_delete_arguments(args(&["--provider"])).unwrap_err()),
        "missing value after `--provider`"
    );
}

#[test]
fn copy_mount_and_mount_arguments() {
    match parse_open_request(args(&["/dev/vg0/data", "--target", "/mnt/copy", "--read-write"]))
        .unwrap()
    {
        Invocation::Run((provider, request)) => {
            assert_eq!(provider, None);
            assert_eq!(request.source.id, "/dev/vg0/data");
            assert_eq!(request.target.as_deref(), Some("/mnt/copy"));
            assert_eq!(request.mode, MountMode::ReadWrite);
        }
        other => panic!("unexpected result {other:?}"),
    }
    assert!(matches!(
        parse_open_request(args(&["--help"])).unwrap(),
        Invocation::Usage
    ));
    match parse_close_request(args(&["snap-1", "/mnt/copy"])).unwrap() {
        Invocation::Run(close) => {
            assert_eq!(close.snapshot_id, "snap-1");
            assert_eq!(close.mount_point, "/mnt/copy");
        }
        other => panic!("unexpected result {other:?}"),
    }
    assert_eq!(
        message(parse_close_request(args(&["snap-1"])).unwrap_err()),
        "missing mount point for `close`"
    );
    match parse_mount_request(args(&["snap-1"])).unwrap() {
        Invocation::Run(mount) => {
            assert_eq!(mount.snapshot_id, "snap-1");
            assert_eq!(mount.mode, MountMode::ReadOnly);
            assert_eq!(mount.target, None);
        }
        other => panic!("unexpected result {other:?}"),
    }
    match parse_unmount_request(args(&["-h"])).unwrap() {
        Invocation::Usage => {}
        other => panic!("unexpected result {other:?}"),
    }
    assert_eq!(
        message(parse_unmount_request(args(&["/mnt/a", "/mnt/b"])).unwrap_err()),
        "unexpected argument `/mnt/b`"
    );
}

#[test]
fn usage_is_asked_for_by_no_arguments_or_a_help_word() {
    assert!(asks_for_usage(&args(&[])));
    assert!(asks_for_usage(&args(&["/mnt/data", "help"])));
    assert!(!asks_for_usage(&args(&["/mnt/data", "--output", "x"])));
}
