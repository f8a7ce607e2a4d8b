use std::sync::Mutex;

use vpt_rs::copy_mount::{
    CloseAction, CloseEvent, CloseStage, CopyMountRequest, OpenAction, OpenEvent, OpenStage,
    close_copy_mount, open_copy_mount,
};
use vpt_rs::{
    Backend, Capability, Error, MountHandle, MountManager, MountMode, MountRequest, Result,
    SnapshotHandle, SnapshotInfo, SnapshotKind, SnapshotProvider, SnapshotRequest, VolumeRef,
};

#[derive(Debug, Default)]
struct FakeBackend {
    fail_mount: bool,
    fail_unmount: bool,
    deleted: Mutex<Vec<String>>,
    unmounted: Mutex<Vec<String>>,
}

impl Backend for FakeBackend {
    fn backend_name(&self) -> &'static str {
        "fake"
    }

    fn capabilities(&self) -> &'static [Capability] {
        &[]
    }
}

impl SnapshotProvider for FakeBackend {
    fn create_snapshot(&self, request: &SnapshotRequest) -> Result<SnapshotInfo> {
        Ok(SnapshotInfo {
            handle: SnapshotHandle {
                id: format!("snap:{}", request.source.id),
                source: Some(request.source.clone()),
            },
            backend: self.backend_name(),
            path_hint: None,
            read_only: request.read_only,
        })
    }

    fn delete_snapshot(&self, snapshot: &SnapshotHandle) -> Result<()> {
        self.deleted.lock().unwrap().push(snapshot.id.clone());
        Ok(())
    }

    fn list_snapshots(&self, _source: &VolumeRef) -> Result<Vec<SnapshotInfo>> {
        Ok(Vec::new())
    }
}

impl MountManager for FakeBackend {
    fn mount_snapshot(&self, request: &MountRequest) -> Result<MountHandle> {
        if self.fail_mount {
            return Err(Error::Message {
                message: "mount failed".to_string(),
            });
        }

        Ok(MountHandle {
            id: request.snapshot.id.clone(),
            mount_point: request
                .target
                .clone()
                .unwrap_or_else(|| "/tmp/fake-mount".to_string()),
        })
    }

    fn unmount(&self, handle: &MountHandle) -> Result<()> {
        if self.fail_unmount {
            return Err(Error::Message {
                message: "unmount failed".to_string(),
            });
        }
        self.unmounted.lock().unwrap().push(handle.mount_point.clone());
        Ok(())
    }
}

#[test]
fn open_copy_mount_returns_snapshot_and_mount() {
    let backend = FakeBackend::default();
    let session = open_copy_mount(
        &backend,
        &CopyMountRequest {
            source: VolumeRef::new("/dev/vg0/data"),
            kind: SnapshotKind::CrashConsistent,
            label: Some("copy".to_string()),
            mode: MountMode::ReadOnly,
            target: Some("/mnt/copy".to_string()),
        },
    )
    .unwrap();

    assert_eq!(session.snapshot.handle.id, "snap:/dev/vg0/data");
    assert_eq!(session.mount.mount_point, "/mnt/copy");
    assert!(session.snapshot.read_only);
}

#[test]
fn open_copy_mount_deletes_snapshot_when_mount_fails() {
    let backend = FakeBackend {
        fail_mount: true,
        ..FakeBackend::default()
    };

    let error = open_copy_mount(
        &backend,
        &CopyMountRequest {
            source: VolumeRef::new("/dev/vg0/data"),
            kind: SnapshotKind::CrashConsistent,
            label: None,
            mode: MountMode::ReadOnly,
            target: None,
        },
    )
    .unwrap_err();

    assert!(matches!(error, Error::Message { .. }));
    assert_eq!(
        backend.deleted.lock().unwrap().as_slice(),
        &[String::from("snap:/dev/vg0/data")]
    );
}

#[test]
fn close_copy_mount_unmounts_then_deletes_snapshot() {
    let backend = FakeBackend::default();
    close_copy_mount(
        &backend,
        &SnapshotHandle {
            id: "snap:/dev/vg0/data".to_string(),
            source: Some(VolumeRef::new("/dev/vg0/data")),
        },
        &MountHandle {
            id: "snap:/dev/vg0/data".to_string(),
            mount_point: "/mnt/copy".to_string(),
        },
    )
    .unwrap();

    assert_eq!(
        backend.unmounted.lock().unwrap().as_slice(),
        &[String::from("/mnt/copy")]
    );
    assert_eq!(
        backend.deleted.lock().unwrap().as_slice(),
        &[String::from("snap:/dev/vg0/data")]
    );
}

#[test]
fn open_copy_mount_read_write_snapshot_is_writable() {
    let backend = FakeBackend::default();
    let session = open_copy_mount(
        &backend,
        &CopyMountRequest {
            source: VolumeRef::new("/dev/vg0/data"),
            kind: SnapshotKind::CrashConsistent,
            label: None,
            mode: MountMode::ReadWrite,
            target: None,
        },
    )
    .unwrap();

    assert!(!session.snapshot.read_only);
    assert_eq!(session.mount.mount_point, "/tmp/fake-mount");
    assert!(backend.deleted.lock().unwrap().is_empty());
}

#[test]
fn copy_mount_requests_follow_the_copy_mount_request() {
    let request = CopyMountRequest {
        source: VolumeRef::new("/dev/vg0/data"),
        kind: SnapshotKind::ApplicationConsistent,
        label: Some("copy".to_string()),
        mode: MountMode::ReadWrite,
        target: Some("/mnt/copy".to_string()),
    };
    let snapshot_request = vpt_rs::copy_mount::copy_snapshot_request(&request);
    assert_eq!(snapshot_request.source.id, "/dev/vg0/data");
    assert_eq!(snapshot_request.kind, SnapshotKind::ApplicationConsistent);
    assert_eq!(snapshot_request.label.as_deref(), Some("copy"));
    assert!(!snapshot_request.read_only);

    let info = SnapshotInfo {
        handle: SnapshotHandle {
            id: "snap-1".to_string(),
            source: None,
        },
        backend: "fake",
        path_hint: None,
        read_only: false,
    };
    let mount_request = vpt_rs::copy_mount::copy_mount_request(&request, &info);
    assert_eq!(mount_request.snapshot.id, "snap-1");
    assert_eq!(mount_request.mode, MountMode::ReadWrite);
    assert_eq!(mount_request.target.as_deref(), Some("/mnt/copy"));
}

fn request() -> CopyMountRequest {
    CopyMountRequest {
        source: VolumeRef::new("/dev/vg0/data"),
        kind: SnapshotKind::CrashConsistent,
        label: Some("copy".to_string()),
        mode: MountMode::ReadOnly,
        target: Some("/mnt/copy".to_string()),
    }
}

fn snapshot_info() -> SnapshotInfo {
    SnapshotInfo {
        handle: SnapshotHandle {
            id: "snap-1".to_string(),
            source: Some(VolumeRef::new("/dev/vg0/data")),
        },
        backend: "fake",
        path_hint: None,
        read_only: true,
    }
}

#[test]
fn opening_mounts_the_created_snapshot_and_deletes_nothing() {
    let request = request();
    let (stage, action) = OpenStage::begin(&request);
    match action {
        OpenAction::CreateSnapshot(q) => {
            assert_eq!(q.source.id, "/dev/vg0/data");
            assert_eq!(q.label.as_deref(), Some("copy"));
            assert!(q.read_only);
        }
        other => panic!("unexpected action {other:?}"),
    }
    let (stage, action) = stage.step(OpenEvent::Created(Ok(snapshot_info())), &request);
    match &action {
        OpenAction::Mount(m) => {
            assert_eq!(m.snapshot.id, "snap-1");
            assert_eq!(m.mode, MountMode::ReadOnly);
            assert_eq!(m.target.as_deref(), Some("/mnt/copy"));
        }
        other => panic!("unexpected action {other:?}"),
    }
    let mount = MountHandle {
        id: "snap-1".to_string(),
        mount_point: "/mnt/copy".to_string(),
    };
    let (stage, action) = stage.step(OpenEvent::Mounted(Ok(mount)), &request);
    assert!(matches!(stage, OpenStage::Done));
    match action {
        OpenAction::Finish(Ok(session)) => {
            assert_eq!(session.snapshot.handle.id, "snap-1");
            assert_eq!(session.mount.mount_point, "/mnt/copy");
        }
        other => panic!("unexpected action {other:?}"),
    }
}

#[test]
fn opening_deletes_the_snapshot_after_a_failed_mount() {
    let request = request();
    let (stage, _) = OpenStage::begin(&request);
    let (stage, _) = stage.step(OpenEvent::Created(Ok(snapshot_info())), &request);
    let (stage, action) = stage.step(
        OpenEvent::Mounted(Err(Error::Message {
            message: "mount failed".to_string(),
        })),
        &request,
    );
    match &action {
        OpenAction::DeleteSnapshot(h) => assert_eq!(h.id, "snap-1"),
        other => panic!("unexpected action {other:?}"),
    }
    let (_, action) = stage.step(
        OpenEvent::Deleted(Err(Error::Message {
            message: "delete failed".to_string(),
        })),
        &request,
    );
    assert!(matches!(
        action,
        OpenAction::Finish(Err(Error::Message { message })) if message == "mount failed"
    ));
}

#[test]
fn closing_unmounts_first_and_deletes_only_after_a_good_unmount() {
    let (stage, action) = CloseStage::begin();
    assert!(matches!(action, CloseAction::Unmount));
    let (stage, action) = stage.step(CloseEvent::Unmounted(Ok(())));
    assert!(matches!(action, CloseAction::DeleteSnapshot));
    let (_, action) = stage.step(CloseEvent::Deleted(Ok(())));
    assert!(matches!(action, CloseAction::Finish(Ok(()))));

    let (stage, _) = CloseStage::begin();
    let (stage, action) = stage.step(CloseEvent::Unmounted(Err(Error::Message {
        message: "busy".to_string(),
    })));
    assert!(matches!(stage, CloseStage::Done));
    assert!(matches!(action, CloseAction::Finish(Err(Error::Message { message })) if message == "busy"));
}

#[test]
fn close_copy_mount_keeps_the_snapshot_when_unmount_fails() {
    let backend = FakeBackend {
        fail_unmount: true,
        ..FakeBackend::default()
    };
    let error = close_copy_mount(
        &backend,
        &SnapshotHandle {
            id: "snap:/dev/vg0/data".to_string(),
            source: None,
        },
        &MountHandle {
            id: "snap:/dev/vg0/data".to_string(),
            mount_point: "/mnt/copy".to_string(),
        },
    )
    .unwrap_err();
    assert!(matches!(error, Error::Message { message } if message == "unmount failed"));
    assert!(backend.deleted.lock().unwrap().is_empty());
}

#[test]
fn open_copy_mount_deletes_nothing_after_a_good_mount() {
    let backend = FakeBackend::default();
    open_copy_mount(&backend, &request()).unwrap();
    assert!(backend.deleted.lock().unwrap().is_empty());
}
