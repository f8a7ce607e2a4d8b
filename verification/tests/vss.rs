use vpt_rs::platform::windows::vss::ffi;
use vpt_rs::platform::windows::vss::ffi::RawSnapshotSet;
use vpt_rs::platform::windows::vss::requestor::VssRequestor;
use vpt_rs::platform::windows::vss::{
    SnapshotContext, VssSnapshotProvider, VssSnapshotSpec, VssTimeouts, WriterCoordination,
};
use vpt_rs::{Error, SnapshotHandle, SnapshotKind, SnapshotRequest, VolumeRef};

#[test]
fn rejects_app_consistent_request_without_writers() {
    let provider =
        VssSnapshotProvider::new().with_writer_coordination(WriterCoordination::Disabled);

    let error = provider
        .validate_request(&SnapshotRequest {
            source: VolumeRef::new(r"\\?\Volume{test}\"),
            kind: SnapshotKind::ApplicationConsistent,
            label: None,
            read_only: true,
        })
        .unwrap_err();

    assert!(matches!(error, Error::MissingCapability { .. }));
}

#[test]
fn rejects_device_paths_as_vss_sources() {
    let provider = VssSnapshotProvider::new();
    let error = provider
        .validate_request(&SnapshotRequest {
            source: VolumeRef::new(r"\\.\PhysicalDrive0"),
            kind: SnapshotKind::CrashConsistent,
            label: None,
            read_only: true,
        })
        .unwrap_err();

    assert!(matches!(error, Error::InvalidArgument { .. }));
}

fn request(volume: &str) -> SnapshotRequest {
    SnapshotRequest {
        source: VolumeRef::new(volume),
        kind: SnapshotKind::CrashConsistent,
        label: None,
        read_only: true,
    }
}

#[test]
fn session_reports_the_created_snapshot() {
    let provider = VssSnapshotProvider::new().with_context(SnapshotContext::ClientAccessible);
    let spec = provider.build_spec(request("C:\\"));
    let session = provider
        .start_session(
            spec,
            || Err(Error::Message {
                message: "no COM".to_string(),
            }),
            |spec, _timeouts| {
                Ok(RawSnapshotSet {
                    snapshot_set_id: "{set}".to_string(),
                    snapshot_id: format!("{{snap of {}}}", spec.request.source.id),
                    device_path: r"\\?\GLOBALROOT\Device\HarddiskVolumeShadowCopy3".to_string(),
                })
            },
        )
        .unwrap();
    assert_eq!(session.snapshot_set_id(), "{set}");
    assert_eq!(session.context(), SnapshotContext::ClientAccessible);
    let info = session.create_snapshot().unwrap();
    assert_eq!(info.handle.id, "{snap of C:\\}");
    assert_eq!(info.backend, "windows-vss");
    assert_eq!(
        info.path_hint.as_deref(),
        Some(r"\\?\GLOBALROOT\Device\HarddiskVolumeShadowCopy3")
    );
    assert_eq!(info.handle.source.unwrap().id, "C:\\");
}

#[test]
fn invalid_requests_never_reach_the_tools() {
    let provider = VssSnapshotProvider::new();
    let spec = provider.build_spec(request("   "));
    let result = provider.start_session(
        spec,
        || panic!("COM must not be set up"),
        |_, _| panic!("no snapshot set must be created"),
    );
    assert!(matches!(result, Err(Error::InvalidVolume { .. })));
}

#[test]
fn requestor_refuses_blank_ids_before_deleting() {
    let requestor = VssRequestor::initialize(VssTimeouts::default(), || Ok(())).unwrap();
    let blank = SnapshotHandle {
        id: "  ".to_string(),
        source: None,
    };
    match requestor.delete_snapshot(&blank, |_| panic!("nothing must be deleted")) {
        Err(Error::InvalidArgument { message }) => {
            assert_eq!(message, "snapshot id must not be empty")
        }
        other => panic!("unexpected result {other:?}"),
    }
    let mut seen = String::new();
    let handle = SnapshotHandle {
        id: "{abc}".to_string(),
        source: None,
    };
    requestor
        .delete_snapshot(&handle, |id| {
            seen = id.to_string();
            Ok(())
        })
        .unwrap();
    assert_eq!(seen, "{abc}");
}

#[test]
fn requestor_refuses_blank_volumes_before_listing() {
    let requestor = VssRequestor::initialize(VssTimeouts::default(), || {
        Err(Error::Message {
            message: "no COM".to_string(),
        })
    })
    .unwrap();
    let result = requestor.list_snapshots(&VolumeRef::new(""), |_, _| panic!("no listing"));
    assert!(matches!(result, Err(Error::InvalidVolume { .. })));
    let listed = requestor
        .list_snapshots(&VolumeRef::new("C:"), |volume, backend| {
            assert_eq!(volume.id, "C:");
            assert_eq!(backend, "windows-vss");
            Ok(Vec::new())
        })
        .unwrap();
    assert!(listed.is_empty());
}

#[test]
fn default_timeouts_and_context() {
    let provider = VssSnapshotProvider::default();
    assert_eq!(provider.writer_coordination(), WriterCoordination::Enabled);
    assert_eq!(provider.context(), SnapshotContext::Backup);
    assert_eq!(provider.timeouts(), VssTimeouts::default());
    assert_eq!(VssTimeouts::default().prepare_for_backup_ms, 60000);
    assert_eq!(SnapshotContext::FileShareBackup.as_str(), "file-share-backup");
}

#[test]
fn snapshot_set_is_created_for_the_requested_volume() {
    let spec = VssSnapshotSpec::new(SnapshotRequest {
        source: VolumeRef::new("C:\\"),
        kind: SnapshotKind::CrashConsistent,
        label: None,
        read_only: true,
    });
    let raw = ffi::create_snapshot_set(&spec, VssTimeouts::default(), |volume: &str| {
        Ok(RawSnapshotSet {
            snapshot_set_id: String::new(),
            snapshot_id: format!("shadow of {volume}"),
            device_path: String::new(),
        })
    })
    .unwrap();
    assert_eq!(raw.snapshot_id, "shadow of C:\\");
}

#[test]
fn deletion_falls_back_to_the_command_line_when_com_fails() {
    let mut seen = String::new();
    let result = ffi::delete_snapshot(
        "{1234}",
        |_id: &str| {
            Err(Error::Message {
                message: "no coordinator".to_string(),
            })
        },
        |id: &str| {
            seen = id.to_string();
            Ok(())
        },
    );
    assert!(result.is_ok());
    assert_eq!(seen, "{1234}");

    let failed = ffi::delete_snapshot(
        "{1234}",
        |_id: &str| {
            Err(Error::Message {
                message: "no coordinator".to_string(),
            })
        },
        |_id: &str| {
            Err(Error::Message {
                message: "vssadmin failed".to_string(),
            })
        },
    );
    assert!(matches!(failed, Err(Error::Message { message }) if message == "vssadmin failed"));
}

#[test]
fn deletion_through_com_skips_the_command_line() {
    let mut cli_ran = false;
    let result = ffi::delete_snapshot("{1234}", |_id: &str| Ok(()), |_id: &str| {
        cli_ran = true;
        Ok(())
    });
    assert!(result.is_ok());
    assert!(!cli_ran);
}

#[test]
fn device_path_and_listing_come_from_the_command_line_route() {
    let path = ffi::get_snapshot_device_path("{1234}", |id: &str| Ok(format!("device of {id}")));
    assert_eq!(path.unwrap(), "device of {1234}");
    let listed = ffi::list_snapshots(&VolumeRef::new("C:\\"), "windows-vss", |source: &VolumeRef, backend: &'static str| {
        assert_eq!(source.id, "C:\\");
        assert_eq!(backend, "windows-vss");
        Ok(Vec::new())
    });
    assert!(listed.unwrap().is_empty());
}
