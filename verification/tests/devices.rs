use adb_bridge::devices::{classify_identifier, parse_device_line, parse_devices, Device,
    DeviceConnectionType};

#[test]
fn two_column_line_yields_local_record() {
    let devices = parse_devices("List of devices attached\nserial123\tdevice\n");
    assert_eq!(devices.len(), 1);
    assert_eq!(devices[0].id, "serial123");
    assert_eq!(devices[0].status, "device");
    assert_eq!(devices[0].connection_type, DeviceConnectionType::Usb);
}

#[test]
fn two_column_line_parses_alone() {
    let d = parse_device_line("serial123\tdevice").expect("line has two tokens");
    assert_eq!(d.id, "serial123");
    assert_eq!(d.status, "device");
    assert_eq!(d.connection_type, DeviceConnectionType::Usb);
}

#[test]
fn host_port_identifier_is_network() {
    assert_eq!(classify_identifier("192.168.1.5:5555"), DeviceConnectionType::Wifi);
    let devices = parse_devices("List of devices attached\n192.168.1.5:5555\tdevice\n");
    assert_eq!(devices.len(), 1);
    assert_eq!(devices[0].id, "192.168.1.5:5555");
    assert_eq!(devices[0].connection_type, DeviceConnectionType::Wifi);
}

#[test]
fn mdns_suffix_identifier_is_network() {
    let id = "adb-R58M123ABC-aBcDeF._adb-tls-connect._tcp";
    assert_eq!(classify_identifier(id), DeviceConnectionType::Wifi);
    let output = format!("List of devices attached\n{}\tdevice\n", id);
    let devices = parse_devices(&output);
    assert_eq!(devices.len(), 1);
    assert_eq!(devices[0].connection_type, DeviceConnectionType::Wifi);
}

#[test]
fn bare_suffix_identifier_is_network() {
    assert_eq!(classify_identifier("._adb-tls-connect._tcp"), DeviceConnectionType::Wifi);
}

#[test]
fn serial_identifier_is_local() {
    assert_eq!(classify_identifier("serial123"), DeviceConnectionType::Usb);
    assert_eq!(classify_identifier("0123456789ABCDEF"), DeviceConnectionType::Usb);
}

#[test]
fn suffix_in_the_middle_is_not_network() {
    assert_eq!(
        classify_identifier("._adb-tls-connect._tcpx"),
        DeviceConnectionType::Usb
    );
}

#[test]
fn empty_output_yields_no_records() {
    let devices = parse_devices("");
    assert!(devices.is_empty());
}

#[test]
fn header_only_output_yields_no_records() {
    assert!(parse_devices("List of devices attached").is_empty());
    assert!(parse_devices("List of devices attached\n").is_empty());
    assert!(parse_devices("List of devices attached\n\n\n").is_empty());
}

#[test]
fn one_token_line_is_skipped_and_parsing_continues() {
    let output = "List of devices attached\ntruncated\nserial123\tdevice\n";
    let devices = parse_devices(output);
    assert_eq!(devices.len(), 1);
    assert_eq!(devices[0].id, "serial123");
    assert_eq!(devices[0].status, "device");
}

#[test]
fn blank_lines_are_skipped() {
    let output = "List of devices attached\n\nserial123\tdevice\n   \nserial456\toffline\n";
    let devices = parse_devices(output);
    assert_eq!(devices.len(), 2);
    assert_eq!(devices[0].id, "serial123");
    assert_eq!(devices[1].id, "serial456");
    assert_eq!(devices[1].status, "offline");
}

#[test]
fn record_order_matches_line_order() {
    let output = "List of devices attached\nbbb\tdevice\naaa\tunauthorized\n192.168.0.2:5555\toffline\n";
    let devices: Vec<Device> = parse_devices(output);
    assert_eq!(devices.len(), 3);
    assert_eq!(devices[0].id, "bbb");
    assert_eq!(devices[1].id, "aaa");
    assert_eq!(devices[1].status, "unauthorized");
    assert_eq!(devices[2].id, "192.168.0.2:5555");
    assert_eq!(devices[2].connection_type, DeviceConnectionType::Wifi);
}

#[test]
fn extra_columns_keep_first_two_tokens() {
    let output = "List of devices attached\nserial123 device usb:1-1 product:x model:y\n";
    let devices = parse_devices(output);
    assert_eq!(devices.len(), 1);
    assert_eq!(devices[0].id, "serial123");
    assert_eq!(devices[0].status, "device");
}

#[test]
fn unicode_blank_separates_columns() {
    let output = "List of devices attached\nserial123\u{a0}device\n";
    let devices = parse_devices(output);
    assert_eq!(devices.len(), 1);
    assert_eq!(devices[0].id, "serial123");
    assert_eq!(devices[0].status, "device");
}

#[test]
fn spaces_and_crlf_are_tolerated() {
    let output = "List of devices attached\r\nserial123   device\r\n";
    let devices = parse_devices(output);
    assert_eq!(devices.len(), 1);
    assert_eq!(devices[0].id, "serial123");
    assert_eq!(devices[0].status, "device");
}
