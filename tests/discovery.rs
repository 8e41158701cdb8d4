use controller_server::discovery::{answer_datagram, decimal_digits, is_discovery_request, discovery_response};

#[test]
fn discovery_answers_probe() {
    let reply = answer_datagram(b"DISCOVER_MOBILE_CONTROLLER", "192.168.1.10", 7878).unwrap();
    let text = String::from_utf8(reply).unwrap();
    assert!(text.starts_with("MOBILE_CONTROLLER:"));
    assert!(text.ends_with(":7878"));
    assert_eq!(text, "MOBILE_CONTROLLER:192.168.1.10:7878");
}

#[test]
fn discovery_ignores_other_payloads() {
    assert_eq!(answer_datagram(b"SHUTDOWN", "10.0.0.1", 7878), None);
    assert_eq!(answer_datagram(b"DISCOVER_MOBILE_CONTROLLER ", "10.0.0.1", 7878), None);
    assert_eq!(answer_datagram(b"", "10.0.0.1", 7878), None);
    assert!(is_discovery_request(b"DISCOVER_MOBILE_CONTROLLER"));
    assert!(!is_discovery_request(b"discover_mobile_controller"));
}

#[test]
fn decimal_digits_of_ports() {
    assert_eq!(decimal_digits(0), b"0".to_vec());
    assert_eq!(decimal_digits(9), b"9".to_vec());
    assert_eq!(decimal_digits(10), b"10".to_vec());
    assert_eq!(decimal_digits(65535), b"65535".to_vec());
    assert_eq!(discovery_response("::1", 80), b"MOBILE_CONTROLLER:::1:80".to_vec());
}
