use server_probe::outcome::{Outcome, TestConnectionResponse};
use server_probe::requests::{
    CreateServerRequest, ServerType, TestConnectionRequest, UpdateServerStatusRequest,
};
use server_probe::status::status_label;
use server_probe::text::{decimal_string, host_port_string, prefixed, udecimal_string};

#[test]
fn renders_small_numbers() {
    assert_eq!(udecimal_string(0), "0");
    assert_eq!(udecimal_string(7), "7");
    assert_eq!(udecimal_string(10), "10");
    assert_eq!(udecimal_string(22), "22");
    assert_eq!(udecimal_string(65535), "65535");
}

#[test]
fn renders_largest_u64() {
    assert_eq!(udecimal_string(u64::MAX), "18446744073709551615");
}

#[test]
fn renders_signed_numbers() {
    assert_eq!(decimal_string(0), "0");
    assert_eq!(decimal_string(-1), "-1");
    assert_eq!(decimal_string(8022), "8022");
    assert_eq!(decimal_string(i64::from(i32::MIN)), "-2147483648");
    assert_eq!(decimal_string(i64::MIN), "-9223372036854775808");
}

#[test]
fn renders_host_port_target() {
    assert_eq!(host_port_string(&"example.com".to_string(), 22), "example.com:22");
    assert_eq!(host_port_string(&"10.1.2.3".to_string(), 8022), "10.1.2.3:8022");
    assert_eq!(host_port_string(&"".to_string(), 0), ":0");
}

#[test]
fn prefixes_detail_text() {
    assert_eq!(prefixed("DNS lookup failed: ", "boom"), "DNS lookup failed: boom");
    assert_eq!(prefixed("", "tail"), "tail");
    assert_eq!(prefixed("head", ""), "head");
}

#[test]
fn labels_online_state() {
    assert_eq!(status_label(true), "online");
    assert_eq!(status_label(false), "offline");
}

#[test]
fn request_bodies_carry_their_fields() {
    let create = CreateServerRequest {
        name: "edge-1".to_string(),
        host: "edge-1.example.com".to_string(),
        port: 22,
        username: "operator".to_string(),
        password: "hunter2".to_string(),
        server_type: ServerType::Web,
    };
    assert_eq!(create.name, "edge-1");
    assert_eq!(create.server_type, ServerType::Web);

    let probe = TestConnectionRequest {
        host: "edge-1.example.com".to_string(),
        port: 22,
        username: "operator".to_string(),
        secret: "hunter2".to_string(),
    };
    assert_eq!(probe.port, 22);

    let update = UpdateServerStatusRequest { is_online: true };
    assert!(update.is_online);
}

#[test]
fn outcome_accessors_expose_message_and_details() {
    let outcome = Outcome::Rejected {
        reason: "For security reasons, connections to localhost are not allowed".to_string(),
        details: server_probe::details::ConnectionDetails::new(),
    };
    assert_eq!(
        outcome.message(),
        "For security reasons, connections to localhost are not allowed"
    );
    assert!(!outcome.details().dns_resolved);
    let response: TestConnectionResponse = server_probe::outcome::to_response(outcome);
    assert!(!response.success);
    assert_eq!(response.details.unwrap().latency_ms, 0);
}
