use smart_parking::gate::{
    describe_port, first_com_port, frame_command, shell_echo_command, shell_gate_report,
    specific_port_report, GateFanout, PortAttemptOutcome, PortClass,
};
use smart_parking::transport::TransportError;

fn ports(names: &[&str]) -> Vec<String> {
    names.iter().map(|n| n.to_string()).collect()
}

#[test]
fn fanout_reports_first_success_in_discovery_order() {
    let mut gf = GateFanout::begin_dispatch(ports(&["p1", "p2", "p3"])).unwrap();
    // Only the second port accepts the write; all three are tried.
    assert_eq!(gf.current_port().as_str(), "p1");
    gf.record_attempt(false);
    assert_eq!(gf.current_port().as_str(), "p2");
    gf.record_attempt(true);
    assert_eq!(gf.current_port().as_str(), "p3");
    gf.record_attempt(false);
    assert!(gf.done());
    let resp = gf.finish("OPEN").unwrap();
    assert!(resp.success);
    assert_eq!(resp.ports_tried, vec!["p1", "p2", "p3"]);
    assert_eq!(resp.successful_port.as_deref(), Some("p2"));
    assert_eq!(resp.message, "Gate command 'OPEN' sent successfully");
}

#[test]
fn fanout_keeps_the_first_of_several_successes() {
    let mut gf = GateFanout::begin_dispatch(ports(&["a", "b", "c"])).unwrap();
    gf.record_attempt(false);
    gf.record_attempt(true);
    gf.record_attempt(true);
    let resp = gf.finish("OPEN").unwrap();
    assert_eq!(resp.successful_port.as_deref(), Some("b"));
}

#[test]
fn fanout_with_zero_ports_fails_before_any_attempt() {
    let r = GateFanout::begin_dispatch(Vec::new());
    match r {
        Err(TransportError::NoDevicesFound) => {},
        _ => panic!("expected NoDevicesFound"),
    }
    assert_eq!(
        TransportError::NoDevicesFound.message(),
        "No serial ports found on this system"
    );
}

#[test]
fn fanout_failure_lists_every_attempted_port() {
    let mut gf = GateFanout::begin_dispatch(ports(&["COM1", "COM2"])).unwrap();
    gf.record_attempt(false);
    gf.record_attempt(false);
    let err = gf.finish("OPEN").unwrap_err();
    match &err {
        TransportError::WriteFailed(d) => assert_eq!(d, "any port. Tried: COM1, COM2"),
        _ => panic!("expected WriteFailed"),
    }
    assert_eq!(err.message(), "Failed to write to any port. Tried: COM1, COM2");
}

#[test]
fn specific_port_success_names_the_port() {
    let resp = specific_port_report("COM7", PortAttemptOutcome::Success).unwrap();
    assert!(resp.success);
    assert_eq!(resp.message, "Gate opened via COM7");
    assert_eq!(resp.ports_tried, vec!["COM7"]);
    assert_eq!(resp.successful_port.as_deref(), Some("COM7"));
}

#[test]
fn specific_port_failures_name_stage_and_port() {
    let open_err = specific_port_report("COM7", PortAttemptOutcome::OpenRefused).unwrap_err();
    assert_eq!(open_err.message(), "Failed to open COM7");
    let write_err = specific_port_report("COM7", PortAttemptOutcome::WriteRefused).unwrap_err();
    assert_eq!(write_err.message(), "Failed to write to COM7");
    let flush_err = specific_port_report("COM7", PortAttemptOutcome::FlushRefused).unwrap_err();
    assert_eq!(flush_err.message(), "Failed to write to COM7 (flush)");
}

#[test]
fn command_is_framed_with_crlf() {
    assert_eq!(frame_command("OPEN"), b"OPEN\r\n");
    assert_eq!(frame_command(""), b"\r\n");
}

#[test]
fn port_classes_have_fixed_labels() {
    assert_eq!(PortClass::Usb.label(), "USB");
    assert_eq!(PortClass::Pci.label(), "PCI");
    assert_eq!(PortClass::Bluetooth.label(), "Bluetooth");
    assert_eq!(PortClass::Unknown.label(), "Unknown");
    let p = describe_port("COM3".to_string(), PortClass::Usb);
    assert_eq!(p.port_name, "COM3");
    assert_eq!(p.port_type, "USB");
}

#[test]
fn first_com_port_scans_in_order() {
    let lines = ports(&["DeviceID", "", "COM4", "COM5"]);
    assert_eq!(first_com_port(&lines).as_deref(), Some("COM4"));
    let none = ports(&["DeviceID", "LPT1"]);
    assert_eq!(first_com_port(&none), None);
    let exact = ports(&["COM"]);
    assert_eq!(first_com_port(&exact).as_deref(), Some("COM"));
    let short = ports(&["CO"]);
    assert_eq!(first_com_port(&short), None);
}

#[test]
fn shell_gate_helpers_build_the_original_lines() {
    assert_eq!(shell_echo_command("1", "COM4"), "echo 1 > COM4");
    assert_eq!(
        shell_gate_report("COM4", true, "").unwrap(),
        "Gate opened successfully on port COM4"
    );
    assert_eq!(
        shell_gate_report("COM4", false, "Access is denied.").unwrap_err(),
        "Command failed on port COM4: Access is denied."
    );
}
