use vpt_rs::platform::windows::vss::ffi::com::{
    VSS_OBJECT_SNAPSHOT, VssId, guid_to_string, snapshot_record, hr_ok, normalize_volume_path, parse_guid, snapshot_info_from_device,
    wide_string,
};
use vpt_rs::Error;

#[test]
fn parse_guid_roundtrip() {
    let s = "{12345678-ABCD-EF01-1122-334455667788}";
    let id = parse_guid(s).unwrap();
    assert_eq!(id.to_guid_string(), s);
}

#[test]
fn parse_guid_without_braces() {
    let s = "12345678-ABCD-EF01-1122-334455667788";
    let id = parse_guid(s).unwrap();
    assert_eq!(id.data1, 0x12345678);
    assert_eq!(id.data2, 0xABCD);
    assert_eq!(id.data3, 0xEF01);
}

#[test]
fn parse_guid_rejects_invalid_format() {
    assert!(parse_guid("not-a-guid").is_err());
    assert!(parse_guid("{1234-5678}").is_err());
    assert!(parse_guid("").is_err());
}

#[test]
fn normalize_volume_path_drive_letter() {
    assert_eq!(normalize_volume_path("C:"), "C:\\");
    assert_eq!(normalize_volume_path("C:\\"), "C:\\");
    assert_eq!(normalize_volume_path("D:"), "D:\\");
}

#[test]
fn normalize_volume_path_guid_passthrough() {
    let guid = r"\\?\Volume{12345678-abcd-ef01-1122-334455667788}\";
    assert_eq!(normalize_volume_path(guid), guid);
}

#[test]
fn wide_string_produces_null_terminated_utf16() {
    let w = wide_string("Hi");
    assert_eq!(w, vec![72, 105, 0]);
}

#[test]
fn vss_id_zero_is_all_zeros() {
    let id = VssId::zero();
    assert_eq!(id.data1, 0);
    assert_eq!(id.data2, 0);
    assert_eq!(id.data3, 0);
    assert_eq!(id.data4, [0; 8]);
}

#[test]
fn guid_text_is_upper_case_and_zero_padded() {
    let id = VssId {
        data1: 0xe579ab5f,
        data2: 0x1cc4,
        data3: 0x44b4,
        data4: [0xbe, 0xd9, 0xde, 0x09, 0x91, 0xff, 0x06, 0x23],
    };
    assert_eq!(guid_to_string(&id), "{E579AB5F-1CC4-44B4-BED9-DE0991FF0623}");
    assert_eq!(VssId::zero().to_guid_string(), "{00000000-0000-0000-0000-000000000000}");
}

#[test]
fn guid_text_reads_back() {
    let id = VssId {
        data1: 0xda9f41d4,
        data2: 0x1a5d,
        data3: 0x41d0,
        data4: [0xa6, 0x14, 0x6d, 0xfd, 0x78, 0xdf, 0x5d, 0x05],
    };
    let back = parse_guid(&id.to_guid_string()).unwrap();
    assert_eq!(back.data1, id.data1);
    assert_eq!(back.data2, id.data2);
    assert_eq!(back.data3, id.data3);
    assert_eq!(back.data4, id.data4);
}

#[test]
fn parse_guid_names_the_offending_group() {
    match parse_guid("{1234567G-ABCD-EF01-1122-334455667788}") {
        Err(Error::InvalidArgument { message }) => {
            assert_eq!(message, "invalid GUID data1: `1234567G`")
        }
        other => panic!("unexpected result {other:?}"),
    }
    match parse_guid("{12345678-ABCD-EF01-11X2-334455667788}") {
        Err(Error::InvalidArgument { message }) => {
            assert_eq!(message, "invalid GUID data4 byte 1")
        }
        other => panic!("unexpected result {other:?}"),
    }
    match parse_guid("+1-+2-+3-+4+5-+6+7+8+9+A+B") {
        Ok(id) => {
            assert_eq!(id.data1, 1);
            assert_eq!(id.data4, [4, 5, 6, 7, 8, 9, 10, 11]);
        }
        other => panic!("unexpected result {other:?}"),
    }
}

#[test]
fn wide_strings_encode_surrogate_pairs() {
    assert_eq!(wide_string("\u{1F600}"), vec![0xD83D, 0xDE00, 0]);
    assert_eq!(wide_string(""), vec![0]);
}

#[test]
fn result_codes_name_the_operation() {
    assert!(hr_ok(0, "Op").is_ok());
    assert!(hr_ok(0x00042304, "Op").is_ok());
    match hr_ok(-2147024891, "DoSnapshotSet") {
        Err(Error::Message { message }) => assert_eq!(
            message,
            "VSS COM error in `DoSnapshotSet`: HRESULT 0x80070005"
        ),
        other => panic!("unexpected result {other:?}"),
    }
}

#[test]
fn device_snapshot_set_is_named_by_the_snapshot() {
    let raw = snapshot_info_from_device("{s}", "C:\\", "dev");
    assert_eq!(raw.snapshot_set_id, "{s}");
    assert_eq!(raw.snapshot_id, "{s}");
    assert_eq!(raw.device_path, "dev");
}

#[test]
fn query_record_of_the_volume_lists_its_snapshot() {
    let id = parse_guid("{12345678-ABCD-EF01-1122-334455667788}").unwrap();
    let info = snapshot_record(
        VSS_OBJECT_SNAPSHOT,
        "c:\\",
        r"\\?\GLOBALROOT\Device\HarddiskVolumeShadowCopy1",
        "",
        &id,
        "C:\\",
        "windows-vss",
    )
    .unwrap();
    assert_eq!(info.handle.id, "{12345678-ABCD-EF01-1122-334455667788}");
    assert_eq!(info.handle.source.unwrap().id, "C:\\");
    assert_eq!(info.backend, "windows-vss");
    assert_eq!(
        info.path_hint,
        Some(r"\\?\GLOBALROOT\Device\HarddiskVolumeShadowCopy1".to_string())
    );
    assert!(info.read_only);

    let exposed = snapshot_record(VSS_OBJECT_SNAPSHOT, "C:", "device", "X:", &id, "C:\\", "windows-vss")
        .unwrap();
    assert_eq!(exposed.path_hint, Some("X:".to_string()));
    let bare = snapshot_record(VSS_OBJECT_SNAPSHOT, "C:", "", "", &id, "C:\\", "windows-vss").unwrap();
    assert_eq!(bare.path_hint, None);
}

#[test]
fn query_records_of_other_volumes_or_kinds_are_skipped() {
    let id = VssId::zero();
    assert!(snapshot_record(VSS_OBJECT_SNAPSHOT, "D:\\", "dev", "", &id, "C:\\", "windows-vss").is_none());
    assert!(snapshot_record(2, "C:\\", "dev", "", &id, "C:\\", "windows-vss").is_none());
}

#[test]
fn parse_guid_refuses_short_or_non_ascii_byte_groups() {
    match parse_guid("1-2-3-4-5") {
        Err(Error::InvalidArgument { message }) => assert_eq!(message, "invalid GUID data4 byte 1"),
        other => panic!("unexpected {other:?}"),
    }
    match parse_guid("{12345678-ABCD-EF01-1122-33445566778}") {
        Err(Error::InvalidArgument { message }) => assert_eq!(message, "invalid GUID data4 byte 7"),
        other => panic!("unexpected {other:?}"),
    }
    match parse_guid("{12345678-ABCD-EF01-11\u{e9}2-334455667788}") {
        Err(Error::InvalidArgument { message }) => assert_eq!(message, "invalid GUID data4 byte 1"),
        other => panic!("unexpected {other:?}"),
    }
}
