// Both servers behind one object.

use facingtime_core::host::RustCoreServer;

#[test]
fn nothing_is_created_at_first() {
    let host = RustCoreServer::new();
    assert!(!host.is_running());
    assert!(!host.is_mdns_running());
    assert_eq!(host.get_status(), "HTTP: not created, mDNS: not created");
    assert_eq!(host.get_server_address(), "");
}

#[test]
fn created_server_is_not_running() {
    let mut host = RustCoreServer::new();
    assert!(host.create_server());
    assert!(!host.is_running());
    assert!(host.create_server());
    assert_eq!(host.get_status(), "HTTP: stopped, mDNS: not created");
    let resources = host.free_server();
    assert!(resources.is_some());
    assert!(host.free_server().is_none());
    assert_eq!(host.get_status(), "HTTP: not created, mDNS: not created");
}

#[test]
fn calls_on_a_server_that_was_not_created_fail() {
    let mut host = RustCoreServer::new();
    let reply = host.start_server("127.0.0.1:0", "/tmp", false);
    assert!(!reply.started);
    assert!(reply.order.is_none());
    host.stop_server();
    assert!(!host.is_running());
    assert!(host.free_server().is_none());
    let reply = host.start_mdns("_game._tcp.local.", "Test", "host", 3456);
    assert!(!reply.started);
    assert!(host.stop_mdns().is_none());
    assert!(!host.is_mdns_running());
    assert!(host.free_mdns().is_none());
}

#[test]
fn server_runs_between_start_and_stop() {
    let mut host = RustCoreServer::new();
    host.create_server();
    host.create_mdns();
    let reply = host.start_server("127.0.0.1:0", "/tmp", false);
    assert!(reply.started);
    assert!(reply.order.is_some());
    assert!(host.is_running());
    assert_eq!(host.get_status(), "HTTP: running, mDNS: stopped");
    assert_eq!(host.get_server_address(), "127.0.0.1:0");
    assert!(host.create_server());
    assert!(host.is_running());
    assert!(!host.start_server("127.0.0.1:0", "/tmp", true).started);
    host.stop_server();
    assert!(!host.is_running());
    host.stop_server();
    assert!(!host.is_running());
    assert_eq!(host.get_status(), "HTTP: stopped, mDNS: stopped");
    assert_eq!(host.get_server_address(), "127.0.0.1:0");
}

#[test]
fn invalid_address_does_not_start_the_server() {
    let mut host = RustCoreServer::new();
    host.create_server();
    assert!(!host.start_server("nowhere", "/tmp", false).started);
    assert!(!host.start_server("nowhere", "/tmp", true).started);
    assert!(!host.is_running());
    assert_eq!(host.get_server_address(), "");
}

#[test]
fn advertiser_refuses_a_type_it_cannot_announce() {
    let mut host = RustCoreServer::new();
    assert!(host.create_mdns());
    assert!(!host.start_mdns("type", "Test", "host", 3456).started);
    assert!(!host.is_mdns_running());
    assert_eq!(host.get_status(), "HTTP: not created, mDNS: stopped");
    assert!(host.free_mdns().is_some());
}

#[test]
fn release_gives_up_both_servers() {
    let mut host = RustCoreServer::new();
    host.create_server();
    assert!(host.start_server("127.0.0.1:0", "/tmp", false).started);
    let resources = host.release();
    let http = resources.http.unwrap();
    assert!(http.shutdown_tx.is_none());
    assert!(http.runtime.is_some());
    assert!(resources.mdns.is_none());
    let resources = RustCoreServer::new().release();
    assert!(resources.http.is_none());
    assert!(resources.mdns.is_none());
}
