//! The options of a connection, and the heads of the requests on it.

use bytes::Bytes;
use http_body_util::Empty;
use linkerd_proxy_http::h2::request::{is_h2, prepare, prepare_any, replaced_version, HttpVersion};
use linkerd_proxy_http::h2::{ClientKeepAlive, ClientParams, Connect, FlowControl};
use std::time::Duration;

/// The options of a connection with these settings, as the builder prints them.
fn options(params: ClientParams) -> String {
    assert!(params.is_valid());
    let (_, handshake) = Connect::<(), Empty<Bytes>>::new((), params).call(());
    format!("{:?}", handshake.configure())
}

fn assert_has(options: &str, expected: &[&str]) {
    for option in expected {
        assert!(options.contains(option), "{option} must be in {options}");
    }
}

const DEFAULT_WINDOWS: &[&str] = &[
    "adaptive_window: false",
    "initial_conn_window_size: 5242880",
    "initial_stream_window_size: 2097152",
];

#[test]
fn default_settings_keep_the_options() {
    let options = options(ClientParams::default());
    assert_has(&options, DEFAULT_WINDOWS);
    assert_has(
        &options,
        &[
            "initial_max_send_streams: 100",
            "max_frame_size: None",
            "max_header_list_size: 16384",
            "keep_alive_interval: None",
            "keep_alive_timeout: 20s",
            "keep_alive_while_idle: false",
            "max_concurrent_reset_streams: None",
            "max_send_buffer_size: 1048576",
            "max_pending_accept_reset_streams: None",
            "max_local_error_reset_streams: Some(1024)",
            "header_table_size: None",
            "max_concurrent_streams: None",
            "reset_stream_duration: None",
        ],
    );
}

#[test]
fn adaptive_flow_control_starts_from_the_prescribed_windows() {
    let options = options(ClientParams {
        flow_control: Some(FlowControl::Adaptive),
        ..ClientParams::default()
    });
    assert_has(
        &options,
        &[
            "adaptive_window: true",
            "initial_conn_window_size: 65535",
            "initial_stream_window_size: 65535",
        ],
    );
}

#[test]
fn fixed_flow_control_sets_both_windows() {
    let options = options(ClientParams {
        flow_control: Some(FlowControl::Fixed {
            initial_stream_window_size: 111_111,
            initial_connection_window_size: 222_222,
        }),
        ..ClientParams::default()
    });
    assert_has(
        &options,
        &[
            "adaptive_window: false",
            "initial_conn_window_size: 222222",
            "initial_stream_window_size: 111111",
        ],
    );
}

#[test]
fn keep_alive_sets_three_options() {
    let options = options(ClientParams {
        keep_alive: Some(ClientKeepAlive {
            timeout: Duration::from_secs(3),
            interval: Duration::from_secs(10),
            while_idle: true,
        }),
        ..ClientParams::default()
    });
    assert_has(&options, DEFAULT_WINDOWS);
    assert_has(
        &options,
        &[
            "keep_alive_interval: Some(10s)",
            "keep_alive_timeout: 3s",
            "keep_alive_while_idle: true",
        ],
    );
}

#[test]
fn sizes_are_set_as_given() {
    let options = options(ClientParams {
        max_concurrent_reset_streams: Some(17),
        max_frame_size: Some(32_768),
        max_send_buf_size: Some(99),
        ..ClientParams::default()
    });
    assert_has(
        &options,
        &[
            "max_concurrent_reset_streams: Some(17)",
            "max_frame_size: Some(32768)",
            "max_send_buffer_size: 99",
        ],
    );
}

#[test]
fn write_buffers_are_bounded() {
    let largest = ClientParams {
        max_send_buf_size: Some(u32::MAX as usize),
        ..ClientParams::default()
    };
    assert_has(&options(largest), &["max_send_buffer_size: 4294967295"]);
    let too_large = ClientParams {
        max_send_buf_size: Some(u32::MAX as usize + 1),
        ..ClientParams::default()
    };
    assert!(!too_large.is_valid());
    assert!(ClientParams::default().is_valid());
}

fn head(uri: &str) -> http::request::Parts {
    http::Request::put(uri)
        .version(http::Version::HTTP_2)
        .header("l5d-test", "kept")
        .extension(7u8)
        .body(())
        .expect("request must be valid")
        .into_parts()
        .0
}

#[test]
fn requests_without_an_authority_are_not_sent_as_http2() {
    let sent = prepare(head("/path?query"));
    assert_eq!(sent.version, http::Version::HTTP_11);
    assert_eq!(sent.method, http::Method::PUT);
    assert_eq!(sent.uri, "/path?query");
    assert_eq!(sent.headers["l5d-test"], "kept");
    assert_eq!(sent.extensions.get::<u8>(), Some(&7));

    let (again, regular) = prepare_any(sent);
    assert!(!regular);
    assert_eq!(again.version, http::Version::HTTP_11);
    assert_eq!(again.uri, "/path?query");
}

#[test]
fn requests_with_an_authority_are_sent_as_they_are() {
    let sent = prepare(head("http://server.test:8080/path"));
    assert_eq!(sent.version, http::Version::HTTP_2);
    assert_eq!(sent.method, http::Method::PUT);
    assert_eq!(sent.uri, "http://server.test:8080/path");
    assert_eq!(sent.headers["l5d-test"], "kept");
    assert_eq!(sent.extensions.get::<u8>(), Some(&7));
}

#[test]
fn requests_of_other_versions_are_told_apart() {
    for version in [
        http::Version::HTTP_09,
        http::Version::HTTP_10,
        http::Version::HTTP_11,
        http::Version::HTTP_3,
    ] {
        let mut relative = head("/path");
        relative.version = version;
        assert!(!is_h2(&relative));
        let (sent, regular) = prepare_any(relative);
        assert!(!regular);
        assert_eq!(sent.version, http::Version::HTTP_11);

        let mut absolute = head("http://server.test/");
        absolute.version = version;
        let (sent, regular) = prepare_any(absolute);
        assert!(!regular);
        assert_eq!(sent.version, version);
    }
    assert!(is_h2(&head("/path")));
    let (sent, regular) = prepare_any(head("/path"));
    assert!(regular);
    assert_eq!(sent.version, http::Version::HTTP_11);
    let (sent, regular) = prepare_any(head("http://server.test/"));
    assert!(regular);
    assert_eq!(sent.version, http::Version::HTTP_2);
}

#[test]
fn only_a_missing_authority_replaces_the_version() {
    assert_eq!(replaced_version(None), Some(HttpVersion::Http11));
    assert_eq!(replaced_version(Some("server.test:8080")), None);
}
