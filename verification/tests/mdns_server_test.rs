// The service advertiser as a foreign host drives it through the handle boundary.

use facingtime_core::ffi::mdns::{
    ft_mdns_server_create, ft_mdns_server_free, ft_mdns_server_is_running, ft_mdns_server_start,
    ft_mdns_server_stop,
};
use facingtime_core::server::mdns_server::MdnsServerState;

/// Whether a handle is not the null handle.
fn is_valid_mdns_handle(handle: &Option<Box<MdnsServerState>>) -> bool {
    handle.is_some()
}

#[test]
fn test_mdns_server_create_returns_valid_handle() {
    let server = ft_mdns_server_create();
    assert!(is_valid_mdns_handle(&server), "mDNS server create should return a non-null handle");

    ft_mdns_server_free(server);
}

#[test]
fn test_mdns_server_free_handles_null() {
    let released = ft_mdns_server_free(None);
    assert!(released.is_none());
}

#[test]
fn test_new_mdns_server_is_not_running() {
    let server = ft_mdns_server_create();
    assert!(is_valid_mdns_handle(&server), "mDNS server should be created");

    let is_running = ft_mdns_server_is_running(server.as_deref());
    assert_eq!(is_running, 0, "New mDNS server should not be running");

    ft_mdns_server_free(server);
}

#[test]
fn test_mdns_server_stop_multiple_times() {
    let mut server = ft_mdns_server_create();
    assert!(is_valid_mdns_handle(&server), "mDNS server should be created");

    let service_type = "_game._tcp.local.".as_bytes();
    let instance_name = "TestServer".as_bytes();
    let hostname = "testserver".as_bytes();
    let port = 3456;

    ft_mdns_server_start(
        server.as_deref_mut(),
        Some(service_type),
        Some(instance_name),
        Some(hostname),
        port,
    );
    ft_mdns_server_stop(server.as_deref_mut());
    ft_mdns_server_stop(server.as_deref_mut());
    assert_eq!(ft_mdns_server_is_running(server.as_deref()), 0);

    ft_mdns_server_free(server);
}

#[test]
fn test_mdns_server_handle_consistency() {
    let server = ft_mdns_server_create();
    assert!(is_valid_mdns_handle(&server), "mDNS server handle should be valid");
    let handle_before: &MdnsServerState = server.as_deref().unwrap();

    let _ = ft_mdns_server_is_running(server.as_deref());
    assert!(
        std::ptr::eq(server.as_deref().unwrap(), handle_before),
        "Handle should not change after is_running"
    );

    ft_mdns_server_free(server);
}

#[test]
fn null_mdns_handle_is_a_safe_failure() {
    let reply = ft_mdns_server_start(None, None, None, None, 3456);
    assert_eq!(reply.code, 0);
    assert!(reply.order.is_none());
    assert!(ft_mdns_server_stop(None).is_none());
    assert_eq!(ft_mdns_server_is_running(None), 0);
}

#[test]
fn mdns_start_fails_on_malformed_text() {
    let mut server = ft_mdns_server_create();
    let malformed: [u8; 2] = [0x5f, 0xff];
    let service_type = "_game._tcp.local.".as_bytes();
    for (a, b, c) in [
        (Some(&malformed[..]), None, None),
        (Some(service_type), Some(&malformed[..]), None),
        (Some(service_type), None, Some(&malformed[..])),
    ] {
        let reply = ft_mdns_server_start(server.as_deref_mut(), a, b, c, 3456);
        assert_eq!(reply.code, 0);
        assert!(reply.order.is_none());
        assert_eq!(ft_mdns_server_is_running(server.as_deref()), 0);
    }
    ft_mdns_server_free(server);
}

#[test]
fn mdns_start_fails_on_a_type_without_a_domain() {
    let mut server = ft_mdns_server_create();
    let reply = ft_mdns_server_start(
        server.as_deref_mut(),
        Some("_game._tcp".as_bytes()),
        Some("TestServer".as_bytes()),
        Some("testserver".as_bytes()),
        3456,
    );
    assert_eq!(reply.code, 0);
    assert_eq!(ft_mdns_server_is_running(server.as_deref()), 0);
    ft_mdns_server_free(server);
}
