use vpt_rs::platform::linux::{LinuxBackend, available_descriptors};
use vpt_rs::Backend;

#[test]
fn lists_named_linux_backends() {
    let names: Vec<_> = available_descriptors()
        .into_iter()
        .map(|descriptor| descriptor.provider_name.unwrap_or(""))
        .collect();

    assert_eq!(names, vec!["btrfs", "lvm", "zfs"]);
}

#[test]
fn named_backends_answer_to_their_provider_name() {
    for name in ["btrfs", "lvm", "zfs"] {
        let backend = LinuxBackend::named(name).unwrap();
        assert_eq!(backend.provider_name(), name);
        assert_eq!(backend.backend_name(), format!("linux-{name}"));
        assert_eq!(backend.descriptor().backend_name, backend.backend_name());
    }
}

#[test]
fn unknown_provider_names_are_refused() {
    match LinuxBackend::named("ext4") {
        Err(vpt_rs::Error::InvalidArgument { message }) => {
            assert_eq!(message, "unknown linux snapshot provider `ext4`")
        }
        other => panic!("unexpected result {other:?}"),
    }
}
