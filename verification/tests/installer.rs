use adb_bridge::installer::{adb_candidates, install_plan, installed_toolset, InstallError,
    InstallStep};
use adb_bridge::paths::{archive_name, installation_root, nested_adb_path, resolve_adb_path,
    HostOs};

#[test]
fn resolved_adb_path_is_os_dependent() {
    assert_eq!(resolve_adb_path("/data/root", HostOs::Linux), "/data/root/adb");
    assert_eq!(resolve_adb_path("/data/root", HostOs::Macos), "/data/root/adb");
    assert_eq!(resolve_adb_path("C:/Users/u/AppData", HostOs::Windows), "C:/Users/u/AppData/adb.exe");
}

#[test]
fn installation_root_is_under_app_data() {
    assert_eq!(installation_root("/home/u/.local/share/app"), "/home/u/.local/share/app/platform-tools");
}

#[test]
fn candidate_layouts_are_flat_and_nested() {
    let (flat, nested) = adb_candidates("/r", HostOs::Linux);
    assert_eq!(flat, "/r/adb");
    assert_eq!(nested, "/r/platform-tools/adb");
    assert_eq!(nested_adb_path("/r", HostOs::Windows), "/r/platform-tools/adb.exe");
}

#[test]
fn archive_is_named_for_the_os() {
    assert_eq!(archive_name(HostOs::Windows), "platform-tools-latest-windows.zip");
    assert_eq!(archive_name(HostOs::Macos), "platform-tools-latest-darwin.zip");
    assert_eq!(archive_name(HostOs::Linux), "platform-tools-latest-linux.zip");
}

#[test]
fn plan_is_noop_when_adb_exists_flat() {
    let step = install_plan("/app", HostOs::Linux, true, false);
    match step {
        InstallStep::AlreadyInstalled(t) => {
            assert_eq!(t.root, "/app/platform-tools");
            assert_eq!(t.adb_path, "/app/platform-tools/adb");
        }
        InstallStep::NeedsExtraction(_) => panic!("no extraction is due"),
    }
}

#[test]
fn plan_is_noop_when_adb_exists_nested() {
    let step = install_plan("/app", HostOs::Linux, false, true);
    assert!(matches!(step, InstallStep::AlreadyInstalled(_)));
}

#[test]
fn plan_extracts_when_adb_is_missing() {
    let step = install_plan("/app", HostOs::Linux, false, false);
    match step {
        InstallStep::AlreadyInstalled(_) => panic!("an extraction is due"),
        InstallStep::NeedsExtraction(plan) => {
            assert_eq!(plan.archive_name, "platform-tools-latest-linux.zip");
            // The archive is extracted into the parent of the installation
            // root: its top-level platform-tools/ folder then lands the
            // binaries flat under the root, where the resolved path looks.
            assert_eq!(plan.destination, "/app");
            assert_eq!(
                plan.fixups,
                vec![
                    "/app/platform-tools/platform-tools/adb".to_string(),
                    "/app/platform-tools/adb".to_string(),
                    "/app/platform-tools/platform-tools/fastboot".to_string(),
                    "/app/platform-tools/fastboot".to_string(),
                ]
            );
        }
    }
}

#[test]
fn second_call_is_a_noop_with_the_same_toolset() {
    // First call: nothing installed yet, one extraction is planned.
    let first = install_plan("/app", HostOs::Macos, false, false);
    assert!(matches!(first, InstallStep::NeedsExtraction(_)));
    let first_toolset = installed_toolset("/app", HostOs::Macos);

    // After the extraction the executable exists, at whichever layout the
    // archive produced: the second call performs no extraction and returns
    // the same toolset path.
    for (flat, nested) in [(true, false), (false, true), (true, true)] {
        let second = install_plan("/app", HostOs::Macos, flat, nested);
        match second {
            InstallStep::AlreadyInstalled(t) => {
                assert_eq!(t.root, first_toolset.root);
                assert_eq!(t.adb_path, first_toolset.adb_path);
                assert_eq!(t.adb_path, "/app/platform-tools/adb");
            }
            InstallStep::NeedsExtraction(_) => panic!("the second call must be a no-op"),
        }
    }
}

#[test]
fn install_error_carries_its_text() {
    let e = InstallError::ResourceNotFound("platform-tools-latest-linux.zip".to_string());
    assert_eq!(e.message(), "platform-tools-latest-linux.zip");
    let e = InstallError::ArchiveRead("bad archive".to_string());
    assert_eq!(e.message(), "bad archive");
    let e = InstallError::FilesystemWrite("disk full".to_string());
    assert_eq!(e.message(), "disk full");
}
