// The HTTP(S) server as a foreign host drives it through the handle boundary.

use facingtime_core::ffi::server::{
    ft_http_server_create, ft_http_server_free, ft_http_server_handle_request,
    ft_http_server_is_running, ft_http_server_start, ft_http_server_stop,
};
use facingtime_core::server::http_server::HttpServerState;

/// Whether a handle is not the null handle.
fn is_valid_handle(handle: &Option<Box<HttpServerState>>) -> bool {
    handle.is_some()
}

#[test]
fn test_server_create_returns_valid_handle() {
    let server = ft_http_server_create();
    assert!(is_valid_handle(&server), "Server create should return a non-null handle");

    ft_http_server_free(server);
}

#[test]
fn test_server_free_handles_null() {
    let released = ft_http_server_free(None);
    assert!(released.is_none());
}

#[test]
fn test_new_server_is_not_running() {
    let server = ft_http_server_create();
    assert!(is_valid_handle(&server), "Server should be created");

    let is_running = ft_http_server_is_running(server.as_deref());
    assert_eq!(is_running, 0, "New server should not be running");

    ft_http_server_free(server);
}

#[test]
fn test_server_handle_consistency() {
    let server = ft_http_server_create();
    assert!(is_valid_handle(&server), "Server handle should be valid");
    let handle_before: &HttpServerState = server.as_deref().unwrap();

    let _ = ft_http_server_is_running(server.as_deref());
    assert!(
        std::ptr::eq(server.as_deref().unwrap(), handle_before),
        "Handle should not change after is_running"
    );

    ft_http_server_free(server);
}

#[test]
fn test_server_start() {
    let mut server = ft_http_server_create();
    assert!(is_valid_handle(&server), "Server should be created");

    let address = "127.0.0.1:0".as_bytes();
    let static_dir = "/tmp".as_bytes();

    let reply = ft_http_server_start(server.as_deref_mut(), Some(address), Some(static_dir), 0);

    assert_eq!(reply.code, 1, "Server should start successfully");

    let is_running = ft_http_server_is_running(server.as_deref());
    assert_eq!(is_running, 1, "Server should be running after start");

    ft_http_server_stop(server.as_deref_mut());
    ft_http_server_free(server);
}

#[test]
fn test_server_stop_multiple_times() {
    let mut server = ft_http_server_create();
    assert!(is_valid_handle(&server), "Server should be created");

    let address = "127.0.0.1:0".as_bytes();
    let static_dir = "/tmp".as_bytes();

    ft_http_server_start(server.as_deref_mut(), Some(address), Some(static_dir), 0);
    ft_http_server_stop(server.as_deref_mut());
    ft_http_server_stop(server.as_deref_mut());
    assert_eq!(ft_http_server_is_running(server.as_deref()), 0);

    ft_http_server_free(server);
}

#[test]
fn null_handle_is_a_safe_failure() {
    let reply = ft_http_server_start(None, Some("127.0.0.1:0".as_bytes()), None, 0);
    assert_eq!(reply.code, 0);
    assert!(reply.order.is_none());
    ft_http_server_stop(None);
    assert_eq!(ft_http_server_is_running(None), 0);
}

#[test]
fn start_uses_defaults_for_missing_texts() {
    let mut server = ft_http_server_create();
    let reply = ft_http_server_start(server.as_deref_mut(), None, None, 0);
    assert_eq!(reply.code, 1);
    let order = reply.order.unwrap();
    assert_eq!(order.address, "0.0.0.0:8080");
    assert_eq!(order.static_dir, "/tmp");
    assert!(order.tls.is_none());
    assert_eq!(server.as_deref().unwrap().get_address(), "0.0.0.0:8080");
    ft_http_server_free(server);
}

#[test]
fn start_fails_on_malformed_text() {
    let mut server = ft_http_server_create();
    let malformed: [u8; 3] = [0x31, 0xff, 0x32];
    let reply = ft_http_server_start(server.as_deref_mut(), Some(&malformed), None, 0);
    assert_eq!(reply.code, 0);
    assert_eq!(ft_http_server_is_running(server.as_deref()), 0);
    let reply = ft_http_server_start(
        server.as_deref_mut(),
        Some("127.0.0.1:8080".as_bytes()),
        Some(&malformed),
        0,
    );
    assert_eq!(reply.code, 0);
    assert_eq!(ft_http_server_is_running(server.as_deref()), 0);
    assert_eq!(server.as_deref().unwrap().get_address(), "");
}

#[test]
fn start_fails_on_invalid_address() {
    let mut server = ft_http_server_create();
    for address in ["", "localhost:8080", "127.0.0.1", "127.0.0.1:", "256.0.0.1:80", ":80"] {
        let reply =
            ft_http_server_start(server.as_deref_mut(), Some(address.as_bytes()), None, 0);
        assert_eq!(reply.code, 0, "{address}");
        assert_eq!(ft_http_server_is_running(server.as_deref()), 0, "{address}");
    }
}

#[test]
fn second_start_is_refused() {
    let mut server = ft_http_server_create();
    let first = ft_http_server_start(server.as_deref_mut(), Some("127.0.0.1:0".as_bytes()), None, 0);
    assert_eq!(first.code, 1);
    let second =
        ft_http_server_start(server.as_deref_mut(), Some("127.0.0.1:1".as_bytes()), None, 0);
    assert_eq!(second.code, 0);
    assert_eq!(ft_http_server_is_running(server.as_deref()), 1);
    assert_eq!(server.as_deref().unwrap().get_address(), "127.0.0.1:0");
}

#[test]
fn start_with_tls_hands_out_an_acceptor() {
    let mut server = ft_http_server_create();
    let reply =
        ft_http_server_start(server.as_deref_mut(), Some("127.0.0.1:0".as_bytes()), None, 1);
    assert_eq!(reply.code, 1);
    assert!(reply.order.unwrap().tls.is_some());
    let config = server.as_deref().unwrap().state().config.clone().unwrap();
    assert!(config.use_https);
    assert!(config.cert_path.is_none());
    assert!(config.key_path.is_none());
}

#[test]
fn handle_request_echoes_headers() {
    let server = ft_http_server_create();
    let reply = ft_http_server_handle_request(
        server.as_deref(),
        Some("GET".as_bytes()),
        Some("/".as_bytes()),
        Some("{\"a\": 1}".as_bytes()),
        None,
    );
    assert_eq!(reply.unwrap(), "{\"status_code\": 200, \"headers\": {\"a\": 1}}");
    let reply = ft_http_server_handle_request(server.as_deref(), None, None, None, None);
    assert_eq!(reply.unwrap(), "{\"status_code\": 200, \"headers\": {}}");
}

#[test]
fn handle_request_on_null_handle_names_the_error() {
    let reply = ft_http_server_handle_request(None, None, None, None, None);
    assert_eq!(reply.unwrap(), "{\"error\": \"server is null\"}");
}

#[test]
fn handle_request_gives_nothing_for_malformed_text() {
    let server = ft_http_server_create();
    let malformed: [u8; 2] = [0xc3, 0x28];
    let ok = "x".as_bytes();
    assert!(ft_http_server_handle_request(server.as_deref(), Some(&malformed), None, None, None)
        .is_none());
    assert!(ft_http_server_handle_request(server.as_deref(), None, Some(&malformed), None, None)
        .is_none());
    assert!(ft_http_server_handle_request(server.as_deref(), None, None, Some(&malformed), None)
        .is_none());
    assert!(ft_http_server_handle_request(server.as_deref(), None, None, None, Some(&malformed))
        .is_none());
    assert!(
        ft_http_server_handle_request(server.as_deref(), Some(ok), Some(ok), Some(ok), Some(ok))
            .is_some()
    );
    let zero: [u8; 3] = [0x7b, 0x00, 0x7d];
    assert!(ft_http_server_handle_request(server.as_deref(), None, None, Some(&zero), None)
        .is_none());
}
