// The lifecycle of the service advertiser on the handle itself.

use std::sync::Arc;

use facingtime_core::server::http_server::LoopVerdict;
use facingtime_core::server::mdns_server::{
    monitor_verdict, registrable_type, service_record, MdnsServerState, MonitorSignal,
};
use facingtime_core::CoreError;

#[test]
fn new_advertiser_is_idle() {
    let mut server = MdnsServerState::new();
    assert!(!server.is_running());
    assert_eq!(server.service_fullname(), "..");
    assert!(server.stop().is_none());
    let server = MdnsServerState::default();
    assert!(!server.is_running());
    assert_eq!(server.service_fullname(), "..");
}

#[test]
fn adopted_registration_is_running_until_stopped() {
    let service_type = "_game._tcp.local.";
    let mut server = MdnsServerState::new();
    let daemon = mdns_sd::ServiceDaemon::new().unwrap();
    let runtime = Arc::new(tokio::runtime::Runtime::new().unwrap());
    let order = server.adopt(daemon, runtime, service_type, "Test", "host", 3456).ok().unwrap();
    assert!(server.is_running());
    assert_eq!(server.service_fullname(), format!("Test.{service_type}."));
    assert_eq!(server.service_fullname(), "Test._game._tcp.local..");
    assert_eq!(order.fullname, "Test._game._tcp.local..");
    drop(order);
    let released = server.stop();
    assert!(released.is_some());
    assert!(!server.is_running());
    assert_eq!(server.service_fullname(), "Test._game._tcp.local..");
    assert!(server.stop().is_none());
    assert!(!server.is_running());
    let resources = server.release();
    assert!(resources.daemon.is_none());
    assert!(resources.runtime.is_none());
}

#[test]
fn registered_advertiser_refuses_another_registration() {
    let mut server = MdnsServerState::new();
    let daemon = mdns_sd::ServiceDaemon::new().unwrap();
    let runtime = Arc::new(tokio::runtime::Runtime::new().unwrap());
    assert!(server.adopt(daemon.clone(), runtime.clone(), "_a._tcp.local.", "One", "h", 1).is_ok());
    assert!(matches!(
        server.adopt(daemon, runtime, "_b._udp.local.", "Two", "g", 2),
        Err(CoreError::AlreadyRunning)
    ));
    assert!(matches!(server.start("_b._udp.local.", "Two", "g", 2), Err(CoreError::AlreadyRunning)));
    assert!(matches!(server.start("bad type", "Two", "g", 2), Err(CoreError::AlreadyRunning)));
    assert!(server.is_running());
    assert_eq!(server.service_fullname(), "One._a._tcp.local..");
    let resources = server.release();
    assert!(resources.daemon.is_some());
    assert!(resources.runtime.is_some());
}

#[test]
fn start_fails_on_a_type_the_responder_cannot_take() {
    for service_type in ["", "._tcp.local.", "_tcp.local.", "_game._tcp.local", "x._sub._tcp.local."] {
        let mut server = MdnsServerState::new();
        assert!(
            matches!(server.start(service_type, "Test", "host", 3456), Err(CoreError::Unknown)),
            "{service_type}"
        );
        assert!(!server.is_running());
        assert_eq!(server.service_fullname(), "..");
    }
}

#[test]
fn service_types_that_are_handed_to_the_responder() {
    for service_type in [
        "_game._tcp.local.",
        "_service._tcp.local.",
        "_http._udp.local.",
        "a._tcp.local.",
        "_printer._sub._http._tcp.local.",
        "x._sub.y._tcp.local.",
        "_gam\u{e9}._tcp.local.",
        "\u{e9}._sub._game._tcp.local.",
        "\u{e9}.a._udp.local.",
    ] {
        assert!(registrable_type(service_type), "{service_type}");
    }
    for service_type in [
        "",
        "._tcp.local.",
        "._udp.local.",
        "_tcp.local.",
        "_game._tcp.local",
        "_game._tcp.example.",
        "_game.._tcp.local.",
        "x._sub._tcp.local.",
        "\u{e9}game._tcp.local.",
        "a.\u{e9}._tcp.local.",
        "x._sub.\u{e9}._tcp.local.",
        "_game._TCP.local.",
    ] {
        assert!(!registrable_type(service_type), "{service_type}");
    }
}

#[test]
fn monitor_leaves_only_on_an_error() {
    assert_eq!(monitor_verdict(MonitorSignal::Error), LoopVerdict::Exit);
    assert_eq!(monitor_verdict(MonitorSignal::Event), LoopVerdict::Continue);
    assert_eq!(monitor_verdict(MonitorSignal::Silence), LoopVerdict::Continue);
}

#[test]
fn record_announces_the_host_under_the_local_domain() {
    let record = service_record("_game._tcp.local.", "TestServer", "testserver", 3456);
    assert_eq!(record.service_type, "_game._tcp.local.");
    assert_eq!(record.instance_name, "TestServer");
    assert_eq!(record.host_name, "testserver.local.");
    assert_eq!(record.port, 3456);
    assert_eq!(record.addresses, "");
    assert!(record.properties.is_empty());
    assert!(record.addr_auto);
    assert_eq!(service_record("t", "i", "", 0).host_name, ".local.");
}
