//! Client configuration: address parsing and the bounds of the connect
//! loop.

use schengen::client::{Builder, ClientError, DEFAULT_PORT};
use schengen::protocol::{PROTOCOL_MAJOR, PROTOCOL_MINOR};

#[test]
fn test_client_builder_requires_server_address() {
    // Builder should require server_addr before connect: only the value
    // server_addr returns exposes connection data, so a connect loop is
    // unreachable here by construction.
    let _builder = Builder::new().name("test-client").dimensions(1920, 1080);
}

#[test]
fn test_client_dimension_configuration() {
    let _builder = Builder::new().dimensions(2560, 1440).name("test");
}

#[test]
fn test_client_retry_interval_configuration() {
    let _builder = Builder::new().retry_interval_ms(5000).name("test");
}

#[test]
fn test_client_name_configuration() {
    let _builder = Builder::new().name("my-custom-client");
}

#[test]
fn test_client_parse_host_port_ipv4() {
    let result = Builder::new().server_addr("192.168.1.100:24801");
    assert!(result.is_ok(), "Should parse IPv4:port");
    let cb = result.unwrap();
    assert_eq!(cb.host(), "192.168.1.100");
    assert_eq!(cb.port(), 24801);
}

#[test]
fn test_client_parse_host_port_ipv4_default() {
    let result = Builder::new().server_addr("192.168.1.100");
    assert!(result.is_ok(), "Should parse IPv4 with default port");
    assert_eq!(result.unwrap().port(), DEFAULT_PORT);
}

#[test]
fn test_client_parse_host_port_hostname() {
    let result = Builder::new().server_addr("localhost:24801");
    assert!(result.is_ok(), "Should parse hostname:port");
    let cb = result.unwrap();
    assert_eq!(cb.host(), "localhost");
    assert_eq!(cb.port(), 24801);
}

#[test]
fn test_client_parse_host_port_ipv6_bracketed() {
    let result = Builder::new().server_addr("[::1]:24801");
    assert!(result.is_ok(), "Should parse [IPv6]:port");
    let cb = result.unwrap();
    assert_eq!(cb.host(), "::1");
    assert_eq!(cb.port(), 24801);
}

#[test]
fn test_client_parse_host_port_ipv6_no_port() {
    let result = Builder::new().server_addr("[::1]");
    assert!(result.is_ok(), "Should parse [IPv6] with default port");
    assert_eq!(result.unwrap().port(), DEFAULT_PORT);
}

#[test]
fn test_client_parse_host_port_ipv6_bare() {
    let result = Builder::new().server_addr("::1");
    assert!(result.is_ok(), "Should parse bare IPv6");
}

#[test]
fn test_client_parse_host_port_ipv6_full() {
    let result = Builder::new().server_addr("2001:0db8:85a3:0000:0000:8a2e:0370:7334");
    assert!(result.is_ok(), "Should parse full IPv6");
}

#[test]
fn test_client_parse_rejects_malformed_addresses() {
    // Out-of-range octets and other malformed input fail with
    // InvalidAddress, never partially parsed.
    let bad = vec![
        "",
        "300.1.1.100",
        "192.168.1",
        "192.168.1.1.1",
        "host:99999",
        "host:",
        ":24801",
        "[::1",
        "[::1]x",
        "[:::]",
        "a:b:c",
        "1:2:3:4:5:6:7:8:9",
        "bad host",
    ];
    for addr in bad {
        assert_eq!(
            Builder::new().server_addr(addr).err(),
            Some(ClientError::InvalidAddress),
            "{} should be rejected",
            addr
        );
    }
}

#[test]
fn test_retry_budget_exhausted_before_deadline() {
    // retry_count = 1 and a failed attempt well inside the deadline:
    // MaxRetriesExceeded(1).
    let cb = Builder::new()
        .retry_count(1)
        .retry_interval_ms(10)
        .server_addr("127.0.0.1:9999")
        .unwrap();
    let verdict = cb.after_failed_attempt(1, 5);
    assert_eq!(verdict, Some(ClientError::MaxRetriesExceeded(1)));
}

#[test]
fn test_deadline_fires_before_retries_run_out() {
    // A large retry budget with a short overall timeout: the deadline
    // decides, even mid-attempt.
    let cb = Builder::new()
        .retry_count(100)
        .retry_interval_ms(100)
        .connection_timeout_ms(250)
        .server_addr("127.0.0.1:9998")
        .unwrap();
    let verdict = cb.after_failed_attempt(3, 250);
    assert_eq!(verdict, Some(ClientError::ConnectionTimeoutExceeded(250)));
    // Before either bound is crossed the loop keeps going.
    assert_eq!(cb.after_failed_attempt(3, 200), None);
}

#[test]
fn test_connect_builder_carries_configuration() {
    let cb = Builder::new()
        .name("test-client")
        .dimensions(1920, 1080)
        .server_addr("example.test:24801")
        .unwrap();
    assert_eq!(cb.client_name(), "test-client");
    assert_eq!(cb.dimensions(), (1920, 1080));
    assert_eq!(cb.retry_interval_ms(), 1000);
}

#[test]
fn test_greeting_reply_carries_name_or_refuses() {
    let cb = Builder::new().name("test-client").server_addr("localhost").unwrap();
    let hello = cb.greeting_reply(PROTOCOL_MAJOR).unwrap();
    assert_eq!(hello.major, PROTOCOL_MAJOR);
    assert_eq!(hello.minor, PROTOCOL_MINOR);
    assert_eq!(hello.client_name, Some("test-client".to_string()));
    assert!(cb.greeting_reply(PROTOCOL_MAJOR + 1).is_none());
}
