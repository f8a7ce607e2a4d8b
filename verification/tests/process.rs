use vpt_rs::process::{
    CommandIo, DEFAULT_TIMEOUT_SECS, command_failure, command_timeout_secs, display_command,
    next_poll_interval_ms,
};
use vpt_rs::Error;

#[test]
fn command_lines_join_arguments_with_spaces() {
    assert_eq!(display_command("btrfs", &[]), "btrfs");
    assert_eq!(
        display_command(
            "btrfs",
            &["subvolume".to_string(), "snapshot".to_string(), "-r".to_string()]
        ),
        "btrfs subvolume snapshot -r"
    );
}

#[test]
fn timeouts_come_from_positive_settings() {
    assert_eq!(command_timeout_secs(None), DEFAULT_TIMEOUT_SECS);
    assert_eq!(command_timeout_secs(Some("90")), 90);
    assert_eq!(command_timeout_secs(Some("0")), 30);
    assert_eq!(command_timeout_secs(Some("-5")), 30);
    assert_eq!(command_timeout_secs(Some("soon")), 30);
}

#[test]
fn failed_commands_report_status_and_trimmed_stderr() {
    match command_failure("lvs".to_string(), Some(5), b"  Volume group not found\n") {
        Error::CommandFailed {
            command,
            status,
            stderr,
        } => {
            assert_eq!(command, "lvs");
            assert_eq!(status, 5);
            assert_eq!(stderr, "Volume group not found");
        }
        other => panic!("unexpected error {other:?}"),
    }
    match command_failure("zfs".to_string(), None, &[0xff, b'x']) {
        Error::CommandFailed { status, stderr, .. } => {
            assert_eq!(status, -1);
            assert_eq!(stderr, "\u{FFFD}x");
        }
        other => panic!("unexpected error {other:?}"),
    }
}

#[test]
fn polling_backs_off_to_two_hundred_milliseconds() {
    assert_eq!(next_poll_interval_ms(10), 20);
    assert_eq!(next_poll_interval_ms(80), 160);
    assert_eq!(next_poll_interval_ms(160), 200);
    assert_eq!(next_poll_interval_ms(200), 200);
}

#[test]
fn default_command_io_keeps_the_pipes() {
    let io = CommandIo::default();
    assert!(io.stdin_file.is_none());
    assert!(io.stdout_file.is_none());
}
