use vpt_rs::platform;
use vpt_rs::{Backend, Capability, SnapshotKind};

#[test]
fn current_backend_has_name() {
    let backend = platform::current_backend();
    assert!(!backend.backend_name().is_empty());
}

#[test]
fn descriptor_matches_backend_name() {
    let backend = platform::current_backend();
    let descriptor = platform::current_backend_descriptor();
    assert_eq!(descriptor.backend_name, backend.backend_name());
    assert!(!descriptor.capabilities.is_empty());
}

#[test]
fn available_backends_is_not_empty() {
    assert!(!platform::available_backend_descriptors().is_empty());
}

#[test]
fn snapshot_kind_parsing_accepts_short_forms() {
    assert_eq!(
        "crash".parse::<SnapshotKind>().unwrap(),
        SnapshotKind::CrashConsistent
    );
    assert_eq!(
        "application".parse::<SnapshotKind>().unwrap(),
        SnapshotKind::ApplicationConsistent
    );
}

#[test]
fn snapshot_kind_parsing_rejects_unknown_kinds() {
    let error = "sometimes".parse::<SnapshotKind>().unwrap_err();
    match error {
        vpt_rs::Error::InvalidArgument { message } => assert_eq!(
            message,
            "unknown snapshot kind `sometimes`; expected `crash` or `application`"
        ),
        other => panic!("unexpected error {other:?}"),
    }
}

#[test]
fn snapshot_kind_names_parse_back() {
    for kind in [SnapshotKind::CrashConsistent, SnapshotKind::ApplicationConsistent] {
        assert_eq!(kind.as_str().parse::<SnapshotKind>().unwrap(), kind);
    }
}

#[test]
fn supports_is_membership_in_capabilities() {
    let backend = platform::current_backend();
    for capability in [
        Capability::CrashConsistentSnapshot,
        Capability::ApplicationConsistentSnapshot,
        Capability::ReadOnlySnapshotMount,
        Capability::BlockLevelBackup,
        Capability::BlockLevelRestore,
        Capability::DirectDeviceAccess,
    ] {
        assert_eq!(
            backend.supports(capability),
            backend.capabilities().contains(&capability)
        );
    }
}

#[test]
fn sanitized_labels_are_stable() {
    let once = vpt_rs::types::sanitize_snapshot_label("nightly backup #1");
    assert_eq!(once, "nightly-backup--1");
    assert_eq!(vpt_rs::types::sanitize_snapshot_label(&once), once);
}

#[test]
fn current_platform_descriptor_is_not_empty() {
    assert!(!platform::current_platform().is_empty());
    assert_eq!(
        platform::current_backend_descriptor().platform,
        platform::current_platform()
    );
}
