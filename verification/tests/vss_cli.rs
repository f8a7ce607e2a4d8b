use vpt_rs::platform::windows::vss::ffi::cli::{
    created_shadow_id, device_path_from_listing, extract_guid, fallback_deletion,
    find_device_path, matches_volume, parse_vssadmin_list_output, parse_wmic_field,
    vssadmin_output_readable, vssadmin_volume, wmic_device_object, wmic_volume,
};
use vpt_rs::Error;

#[test]
fn extract_guid_from_indented_line() {
    let line = "   Shadow Copy ID: {12345678-abcd-ef01-1122-334455667788}";
    let guid = extract_guid(line);
    assert_eq!(guid.as_deref(), Some("{12345678-abcd-ef01-1122-334455667788}"));
}

#[test]
fn extract_guid_returns_none_for_no_braces() {
    assert_eq!(extract_guid("no guid here"), None);
}

#[test]
fn extract_guid_returns_none_for_wrong_segment_count() {
    assert_eq!(extract_guid("{1234-5678}"), None);
}

#[test]
fn parse_wmic_field_extracts_value() {
    let output = "ReturnValue = 0;\nShadowID = {ABC-123};\n";
    assert_eq!(parse_wmic_field(output, "ShadowID"), Some("{ABC-123}".to_string()));
}

#[test]
fn parse_wmic_field_returns_none_for_missing_field() {
    let output = "ReturnValue = 0;\n";
    assert_eq!(parse_wmic_field(output, "ShadowID"), None);
}

#[test]
fn matches_volume_case_insensitive() {
    assert!(matches_volume(&Some("C:\\".to_string()), "c:"));
    assert!(matches_volume(&Some("D:".to_string()), "D:\\"));
    assert!(!matches_volume(&Some("C:".to_string()), "D:"));
    assert!(!matches_volume(&None, "C:"));
}

#[test]
fn parse_vssadmin_list_output_parses_snapshots() {
    let output = r#"Shadow Copy ID: {11111111-2222-3333-4444-555555555555}
   Original Volume: (C:)\\?\Volume{66666666-7777-8888-9999-aaaaaaaaaaaa}\
   Shadow Copy Volume: \\?\GLOBALROOT\Device\HarddiskVolumeShadowCopy1
   Originating Machine: DESKTOP
   Service Machine: DESKTOP
   Provider: Microsoft Software Shadow Copy provider 1.0
   Type: ClientAccessible
   Attributes: Auto_release

Shadow Copy ID: {aaaaaaaa-bbbb-cccc-dddd-eeeeeeeeeeee}
   Original Volume: (D:)\\?\Volume{ffffffff-1111-2222-3333-444444444444}\
   Shadow Copy Volume: \\?\GLOBALROOT\Device\HarddiskVolumeShadowCopy2
"#;
    let snapshots = parse_vssadmin_list_output(output, "C:\\", "windows-vss");
    assert_eq!(snapshots.len(), 1);
    assert_eq!(snapshots[0].handle.id, "{11111111-2222-3333-4444-555555555555}");
}

#[test]
fn parse_vssadmin_list_output_returns_empty_for_no_match() {
    let output = r#"Shadow Copy ID: {11111111-2222-3333-4444-555555555555}
   Original Volume: (D:)\\?\Volume{66666666-7777-8888-9999-aaaaaaaaaaaa}\
"#;
    let snapshots = parse_vssadmin_list_output(output, "C:\\", "windows-vss");
    assert_eq!(snapshots.len(), 0);
}

#[test]
fn find_device_path_extracts_globalroot_path() {
    let output = r"   Shadow Copy Volume: \\?\GLOBALROOT\Device\HarddiskVolumeShadowCopy1".to_string()
        + "\n";
    assert_eq!(
        find_device_path(&output),
        Some(r"\\?\GLOBALROOT\Device\HarddiskVolumeShadowCopy1".to_string())
    );
}

#[test]
fn find_device_path_returns_none_for_empty() {
    assert_eq!(find_device_path("no device path here"), None);
}

#[test]
fn vssadmin_records_keep_their_device_paths() {
    let output = "Shadow Copy ID: {11111111-2222-3333-4444-555555555555}\r\n   Original Volume: (E:)\\\\?\\Volume{66666666-7777-8888-9999-aaaaaaaaaaaa}\\\r\n   Shadow Copy Volume: \\\\?\\GLOBALROOT\\Device\\HarddiskVolumeShadowCopy7\r\n";
    let snapshots = parse_vssadmin_list_output(output, "e:", "windows-vss");
    assert_eq!(snapshots.len(), 1);
    assert_eq!(
        snapshots[0].path_hint.as_deref(),
        Some(r"\\?\GLOBALROOT\Device\HarddiskVolumeShadowCopy7")
    );
    assert_eq!(snapshots[0].handle.source.as_ref().unwrap().id, "e:");
    assert!(snapshots[0].read_only);
}

#[test]
fn wmic_create_answers() {
    let ok = "Executing (Win32_ShadowCopy)->create()\r\nMethod execution successful.\r\nOut Parameters:\r\ninstance of __PARAMETERS\r\n{\r\n\tReturnValue = 0;\r\n\tShadowID = \"{AAAAAAAA-BBBB-CCCC-DDDD-EEEEEEEEEEEE}\";\r\n};\r\n";
    assert_eq!(
        created_shadow_id(true, ok).unwrap(),
        "{AAAAAAAA-BBBB-CCCC-DDDD-EEEEEEEEEEEE}"
    );
    match created_shadow_id(false, "  denied \n") {
        Err(Error::Message { message }) => {
            assert_eq!(message, "wmic shadowcopy create failed: denied")
        }
        other => panic!("unexpected result {other:?}"),
    }
    assert!(matches!(
        created_shadow_id(true, "ReturnValue = 0;\n"),
        Err(Error::Message { .. })
    ));
}

#[test]
fn tool_arguments_name_the_volume() {
    assert_eq!(wmic_volume("C:\\"), "C:\\\\");
    assert_eq!(vssadmin_volume("C:/"), "C:\\");
}

#[test]
fn wmic_device_object_finds_the_global_root_line() {
    let output = "DeviceObject\r\n\\\\?\\GLOBALROOT\\Device\\HarddiskVolumeShadowCopy9  \r\n\r\n";
    assert_eq!(
        wmic_device_object(output).as_deref(),
        Some(r"\\?\GLOBALROOT\Device\HarddiskVolumeShadowCopy9")
    );
    assert_eq!(wmic_device_object("DeviceObject\r\n"), None);
}

#[test]
fn listing_and_deletion_failures_are_reported() {
    match device_path_from_listing("{x}", "nothing") {
        Err(Error::Message { message }) => {
            assert_eq!(message, "could not find device path for snapshot {x}")
        }
        other => panic!("unexpected result {other:?}"),
    }
    assert!(fallback_deletion(true, "ignored").is_ok());
    match fallback_deletion(false, " busy ") {
        Err(Error::Message { message }) => assert_eq!(message, "snapshot delete failed: busy"),
        other => panic!("unexpected result {other:?}"),
    }
}

#[test]
fn unreadable_original_volumes_are_detected() {
    let readable = "Shadow Copy ID: {11111111-2222-3333-4444-555555555555}\n   Original Volume: (C:)\\\\?\\Volume{66666666-7777-8888-9999-aaaaaaaaaaaa}\\\n";
    assert!(vssadmin_output_readable(readable));
    let unreadable = "   Original Volume: (\\\\?\\Volume{66666666-7777-8888-9999-aaaaaaaaaaaa}\\\n";
    assert!(!vssadmin_output_readable(unreadable));
    assert!(vssadmin_output_readable("no parenthesis \\\\?\\Volume{x}"));
}
