use netprintswitch::detection::{is_blank_output, parse_network_detection, parse_printer_enumeration};

#[test]
fn network_probe_output_is_read() {
    let n = parse_network_detection(true, "exit code: 0", br#"{"Name":" Office Wi-Fi ","NetworkType":"Wi-Fi","RouteMetric":25}"#, b"")
        .unwrap()
        .unwrap();
    assert_eq!((n.name.as_str(), n.network_type.as_str()), ("Office Wi-Fi", "Wi-Fi"));
    assert!(parse_network_detection(true, "exit code: 0", b" \r\n", b"").unwrap().is_none());
}

#[test]
fn network_probe_errors_say_what_is_wrong() {
    assert_eq!(
        parse_network_detection(true, "s", br#"{"Name":"  ","NetworkType":"Wi-Fi"}"#, b"").unwrap_err(),
        "network detection returned no network name"
    );
    assert_eq!(
        parse_network_detection(true, "s", br#"{"Name":"Lab","NetworkType":7}"#, b"").unwrap_err(),
        "network detection returned no network type"
    );
    assert_eq!(
        parse_network_detection(true, "s", br#"[{"Name":"Lab"}]"#, b"").unwrap_err(),
        "network detection returned no network name"
    );
    let invalid = parse_network_detection(true, "s", b"{", b"").unwrap_err();
    assert!(invalid.starts_with("network detection returned invalid JSON: "));
    assert_eq!(
        parse_network_detection(false, "exit code: 1", b"", b"Get-NetConnectionProfile failed").unwrap_err(),
        "network detection failed with status exit code: 1: Get-NetConnectionProfile failed"
    );
}

#[test]
fn printer_enumeration_output_is_read() {
    let ps = parse_printer_enumeration(
        true,
        "exit code: 0",
        br#"[{"Name":"Laser","Default":true},{"Default":false},{"Name":"Inkjet"},{"Name":"PDF","Default":"yes"}]"#,
        b"",
    )
    .unwrap();
    let got: Vec<(&str, bool)> = ps.iter().map(|p| (p.name.as_str(), p.is_default)).collect();
    assert_eq!(got, vec![("Laser", true), ("Inkjet", false), ("PDF", false)]);
    let one = parse_printer_enumeration(true, "s", br#"{"Name":"Only","Default":true}"#, b"").unwrap();
    assert_eq!(one.len(), 1);
    assert!(one[0].is_default);
    assert!(parse_printer_enumeration(true, "s", b"\n", b"").unwrap().is_empty());
}

#[test]
fn printer_enumeration_errors() {
    assert_eq!(
        parse_printer_enumeration(true, "s", b"42", b"").unwrap_err(),
        "printer enumeration returned unexpected JSON"
    );
    assert!(parse_printer_enumeration(true, "s", b"[1,", b"")
        .unwrap_err()
        .starts_with("printer enumeration returned invalid JSON: "));
    assert_eq!(
        parse_printer_enumeration(false, "exit code: 2", b" out ", b"").unwrap_err(),
        "printer enumeration failed with status exit code: 2: out"
    );
}

#[test]
fn blank_output_is_ascii_white_space_only() {
    assert!(is_blank_output(b""));
    assert!(is_blank_output(b" \t\r\n\x0c"));
    assert!(!is_blank_output(b" \x0b "));
    assert!(!is_blank_output(b"{}"));
}
