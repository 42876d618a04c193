use adb_bridge::bridge::{command_outcome, list_devices_outcome, shutdown_outcome,
    spawn_precheck, ProcessError};
use adb_bridge::devices::DeviceConnectionType;

#[test]
fn missing_executable_is_a_spawn_failure() {
    // The readiness check on a non-existent path reports false, and the
    // precheck then refuses the spawn with a spawn-failure error, not with a
    // non-zero-exit error.
    let r = spawn_precheck("/nowhere/adb", false);
    let e = r.expect_err("a missing executable must be refused");
    assert!(matches!(e, ProcessError::SpawnFailure(_)));
    assert!(!matches!(e, ProcessError::NonZeroExit(_)));
    assert_eq!(e.message(), "adb executable not found: /nowhere/adb");
}

#[test]
fn existing_executable_passes_the_precheck() {
    assert!(spawn_precheck("/r/adb", true).is_ok());
}

#[test]
fn zero_exit_returns_stdout() {
    let r = command_outcome(true, "Android Debug Bridge version 1.0.41\n".to_string(),
        String::new());
    assert_eq!(r.unwrap(), "Android Debug Bridge version 1.0.41\n");
}

#[test]
fn nonzero_exit_returns_stderr_as_error() {
    let r = command_outcome(false, String::new(), "error: no devices found".to_string());
    let e = r.expect_err("a non-zero exit is an error");
    assert!(matches!(e, ProcessError::NonZeroExit(_)));
    assert_eq!(e.message(), "error: no devices found");
}

#[test]
fn device_listing_parses_successful_output() {
    let run = command_outcome(
        true,
        "List of devices attached\nserial123\tdevice\n192.168.1.5:5555\toffline\n".to_string(),
        String::new(),
    );
    let devices = list_devices_outcome(run).unwrap();
    assert_eq!(devices.len(), 2);
    assert_eq!(devices[0].id, "serial123");
    assert_eq!(devices[0].connection_type, DeviceConnectionType::Usb);
    assert_eq!(devices[1].id, "192.168.1.5:5555");
    assert_eq!(devices[1].connection_type, DeviceConnectionType::Wifi);
}

#[test]
fn device_listing_passes_errors_through() {
    let run = command_outcome(false, String::new(), "adb: device offline".to_string());
    let e = list_devices_outcome(run).expect_err("the invocation failed");
    assert!(matches!(e, ProcessError::NonZeroExit(_)));
    assert_eq!(e.message(), "adb: device offline");
}

#[test]
fn shutdown_suppresses_a_nonzero_exit() {
    let run = command_outcome(false, String::new(), "server not running".to_string());
    assert!(shutdown_outcome(run).is_ok());
    let run = command_outcome(true, String::new(), String::new());
    assert!(shutdown_outcome(run).is_ok());
}

#[test]
fn shutdown_still_surfaces_a_spawn_failure() {
    let run = spawn_precheck("/nowhere/adb", false).map(|_| String::new());
    let e = shutdown_outcome(run).expect_err("a spawn failure surfaces");
    assert!(matches!(e, ProcessError::SpawnFailure(_)));
}
