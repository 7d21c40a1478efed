//! Both servers behind one object, as a scripting host drives them: each
//! server is created, started, stopped and freed by name, and every call on
//! a server that was not created is a failure that changes nothing.

use std::sync::Arc;
use vstd::prelude::*;
use vstd::string::StringExecFns;
use tokio::runtime::Runtime;
use crate::server::http_server::{
    refusal,
    start_outcome,
    stopped,
    HttpResources,
    HttpServerState,
    HttpServerView,
    ServeOrder,
};
use crate::server::mdns_server::{
    advertised,
    fullname_of,
    is_registrable_type,
    withdrawn,
    MdnsResources,
    MdnsServerState,
    MdnsServerView,
    MonitorOrder,
};
use crate::text::bytes_of;

verus! {

/// The answer to a start of the HTTP(S) server.
pub struct ServerStart {
    /// Whether the server was started.
    pub started: bool,
    /// The order for the accept loop, where it was.
    pub order: Option<ServeOrder>,
}

/// The answer to a start of the advertiser.
pub struct AdvertiserStart {
    /// Whether the service was registered.
    pub started: bool,
    /// The order for the monitor, where it was.
    pub order: Option<MonitorOrder>,
}

/// What the object owned, taken apart for release.
pub struct HostResources {
    /// What the HTTP(S) server owned, where one was created.
    pub http: Option<HttpResources>,
    /// What the advertiser owned, where one was created.
    pub mdns: Option<MdnsResources>,
}

/// The two servers, each created or not.
pub struct RustCoreServer {
    http_server: Option<HttpServerState>,
    mdns_server: Option<MdnsServerState>,
}

/// The object as plain values.
pub struct RustCoreServerView {
    /// The HTTP(S) server, where one was created.
    pub http: Option<HttpServerView>,
    /// The advertiser, where one was created.
    pub mdns: Option<MdnsServerView>,
}

/// The word for the state of a server: whether it was created, and whether
/// it runs.
pub open spec fn status_word(created: bool, running: bool) -> Seq<char> {
    if !created {
        "not created"@
    } else if running {
        "running"@
    } else {
        "stopped"@
    }
}

/// The port a host's integer stands for: its lowest sixteen bits.
pub open spec fn port_of(port: i32) -> u16 {
    (port & 0xffff) as u16
}

impl View for RustCoreServer {
    type V = RustCoreServerView;

    closed spec fn view(&self) -> RustCoreServerView {
        RustCoreServerView {
            http: match self.http_server {
                Some(s) => Some(s@),
                None => None,
            },
            mdns: match self.mdns_server {
                Some(s) => Some(s@),
                None => None,
            },
        }
    }
}

impl RustCoreServer {
    /// An object with neither server created.
    pub fn new() -> (host: RustCoreServer)
        ensures
            host@.http is None,
            host@.mdns is None,
    {
        RustCoreServer { http_server: None, mdns_server: None }
    }

    /// Creates the HTTP(S) server unless it exists. Always succeeds; a
    /// server that exists is kept as it is.
    pub fn create_server(&mut self) -> (created: bool)
        ensures
            created,
            final(self)@.mdns == old(self)@.mdns,
            final(self)@.http is Some,
            old(self)@.http is Some ==> final(self)@.http == old(self)@.http,
            old(self)@.http is None ==> {
                &&& !final(self)@.http->0.state.is_running
                &&& final(self)@.http->0.state.config is None
                &&& !final(self)@.http->0.has_runtime
                &&& !final(self)@.http->0.armed
            },
    {
        if self.http_server.is_none() {
            self.http_server = Some(HttpServerState::new());
        }
        true
    }

    /// Starts the HTTP(S) server, on HTTPS where `use_https` is set. Fails
    /// where the server was not created; otherwise it is the start of the
    /// server itself.
    pub fn start_server(&mut self, address: &str, static_dir: &str, use_https: bool) -> (reply:
        ServerStart)
        ensures
            final(self)@.mdns == old(self)@.mdns,
            reply.started <==> reply.order is Some,
            old(self)@.http is None ==> !reply.started && final(self)@ == old(self)@,
            old(self)@.http is Some ==> {
                &&& final(self)@.http is Some
                &&& if reply.started {
                    start_outcome(
                        old(self)@.http->0,
                        final(self)@.http->0,
                        address@,
                        static_dir@,
                        use_https,
                        Ok(reply.order->0),
                    )
                } else {
                    final(self)@ == old(self)@
                }
            },
            old(self)@.http is Some && !use_https && old(self)@.http->0.has_runtime && refusal(
                old(self)@.http->0,
                address@,
            ) is None ==> reply.started,
    {
        match &mut self.http_server {
            Some(server) => {
                let outcome = if use_https {
                    server.start_https(address, static_dir)
                } else {
                    server.start(address, static_dir)
                };
                match outcome {
                    Ok(order) => ServerStart { started: true, order: Some(order) },
                    Err(_) => ServerStart { started: false, order: None },
                }
            },
            None => ServerStart { started: false, order: None },
        }
    }

    /// Asks the HTTP(S) server to stop. Does nothing where it was not
    /// created.
    pub fn stop_server(&mut self)
        ensures
            final(self)@.mdns == old(self)@.mdns,
            final(self)@.http == match old(self)@.http {
                Some(server) => Some(stopped(server)),
                None => None,
            },
    {
        match &mut self.http_server {
            Some(server) => {
                server.stop();
            },
            None => {},
        }
    }

    /// Whether the HTTP(S) server is believed to run. A server that was not
    /// created does not run.
    pub fn is_running(&self) -> (running: bool)
        ensures
            running == (self@.http is Some && self@.http->0.state.is_running),
    {
        match &self.http_server {
            Some(server) => server.is_running(),
            None => false,
        }
    }

    /// The state of both servers in words, for a person to read.
    pub fn get_status(&self) -> (status: String)
        ensures
            status@ == "HTTP: "@ + status_word(
                self@.http is Some,
                self@.http is Some && self@.http->0.state.is_running,
            ) + ", mDNS: "@ + status_word(
                self@.mdns is Some,
                self@.mdns is Some && self@.mdns->0.is_registered,
            ),
    {
        let http_status = match &self.http_server {
            Some(server) => if server.is_running() {
                "running"
            } else {
                "stopped"
            },
            None => "not created",
        };
        let mdns_status = match &self.mdns_server {
            Some(server) => if server.is_running() {
                "running"
            } else {
                "stopped"
            },
            None => "not created",
        };
        String::from_str("HTTP: ").concat(http_status).concat(", mDNS: ").concat(mdns_status)
    }

    /// The address of the last successful start of the HTTP(S) server, or
    /// the empty string where there was none.
    pub fn get_server_address(&self) -> (address: String)
        ensures
            address@ == if self@.http is Some && self@.http->0.state.config is Some {
                self@.http->0.state.config->0.address
            } else {
                Seq::<char>::empty()
            },
    {
        match &self.http_server {
            Some(server) => server.get_address(),
            None => String::new(),
        }
    }

    /// Gives up the HTTP(S) server and hands out what it owned, to be
    /// dropped away from the scheduler's threads. Gives nothing where no
    /// server was created.
    pub fn free_server(&mut self) -> (resources: Option<HttpResources>)
        ensures
            final(self)@.mdns == old(self)@.mdns,
            final(self)@.http is None,
            resources is Some <==> old(self)@.http is Some,
            resources is Some ==> {
                &&& resources->0.shutdown_tx.is_some() == old(self)@.http->0.armed
                &&& resources->0.runtime.is_some() == old(self)@.http->0.has_runtime
            },
    {
        match self.http_server.take() {
            Some(server) => Some(server.release()),
            None => None,
        }
    }

    /// Creates the advertiser unless it exists. Always succeeds; an
    /// advertiser that exists is kept as it is.
    pub fn create_mdns(&mut self) -> (created: bool)
        ensures
            created,
            final(self)@.http == old(self)@.http,
            final(self)@.mdns is Some,
            old(self)@.mdns is Some ==> final(self)@.mdns == old(self)@.mdns,
            old(self)@.mdns is None ==> !final(self)@.mdns->0.is_registered,
    {
        if self.mdns_server.is_none() {
            self.mdns_server = Some(MdnsServerState::new());
        }
        true
    }

    /// Registers the service. Fails where the advertiser was not created;
    /// otherwise it is the start of the advertiser itself, on the port that
    /// the lowest sixteen bits of `port` write.
    pub fn start_mdns(&mut self, service_type: &str, instance_name: &str, hostname: &str, port: i32) -> (reply:
        AdvertiserStart)
        ensures
            final(self)@.http == old(self)@.http,
            reply.started <==> reply.order is Some,
            !reply.started ==> final(self)@ == old(self)@,
            reply.started ==> {
                &&& old(self)@.mdns is Some
                &&& !old(self)@.mdns->0.is_registered
                &&& is_registrable_type(bytes_of(service_type@))
                &&& final(self)@.mdns == Some(
                    advertised(service_type@, instance_name@, hostname@, port_of(port)),
                )
                &&& reply.order->0.fullname@ == fullname_of(instance_name@, service_type@)
            },
    {
        let low: i32 = port & 0xffff;
        assert(0 <= low <= 0xffff) by (bit_vector)
            requires
                low == port & 0xffff,
        ;
        match &mut self.mdns_server {
            Some(server) => {
                match server.start(service_type, instance_name, hostname, low as u16) {
                    Ok(order) => AdvertiserStart { started: true, order: Some(order) },
                    Err(_) => AdvertiserStart { started: false, order: None },
                }
            },
            None => AdvertiserStart { started: false, order: None },
        }
    }

    /// Withdraws the service and hands out the scheduler that was released,
    /// to be dropped away from its own threads. Does nothing where the
    /// advertiser was not created or announces nothing.
    pub fn stop_mdns(&mut self) -> (released: Option<Arc<Runtime>>)
        ensures
            final(self)@.http == old(self)@.http,
            final(self)@.mdns == match old(self)@.mdns {
                Some(server) => Some(
                    if server.is_registered {
                        withdrawn(server)
                    } else {
                        server
                    },
                ),
                None => None,
            },
            released is Some <==> old(self)@.mdns is Some && old(self)@.mdns->0.is_registered
                && old(self)@.mdns->0.has_runtime,
    {
        match &mut self.mdns_server {
            Some(server) => {
                if server.is_running() {
                    server.stop()
                } else {
                    None
                }
            },
            None => None,
        }
    }

    /// Whether the service is registered. An advertiser that was not
    /// created announces nothing.
    pub fn is_mdns_running(&self) -> (running: bool)
        ensures
            running == (self@.mdns is Some && self@.mdns->0.is_registered),
    {
        match &self.mdns_server {
            Some(server) => server.is_running(),
            None => false,
        }
    }

    /// Gives up the advertiser and hands out what it owned, to be dropped
    /// away from the scheduler's threads. Gives nothing where no advertiser
    /// was created.
    pub fn free_mdns(&mut self) -> (resources: Option<MdnsResources>)
        ensures
            final(self)@.http == old(self)@.http,
            final(self)@.mdns is None,
            resources is Some <==> old(self)@.mdns is Some,
            resources is Some ==> {
                &&& resources->0.daemon.is_some() == old(self)@.mdns->0.has_daemon
                &&& resources->0.runtime.is_some() == old(self)@.mdns->0.has_runtime
            },
    {
        match self.mdns_server.take() {
            Some(server) => Some(server.release()),
            None => None,
        }
    }

    /// Ends the object: stops both servers, gives both up, and hands out
    /// what they owned. The daemon of a registered service is let go; its
    /// scheduler is handed out with the rest.
    pub fn release(self) -> (resources: HostResources)
        ensures
            resources.http is Some <==> self@.http is Some,
            resources.mdns is Some <==> self@.mdns is Some,
            resources.http is Some ==> {
                &&& resources.http->0.shutdown_tx.is_some() == stopped(self@.http->0).armed
                &&& resources.http->0.runtime.is_some() == self@.http->0.has_runtime
            },
            resources.mdns is Some ==> {
                &&& resources.mdns->0.daemon.is_some() == (!self@.mdns->0.is_registered
                    && self@.mdns->0.has_daemon)
                &&& resources.mdns->0.runtime.is_some() == self@.mdns->0.has_runtime
            },
    {
        let mut host = self;
        host.stop_server();
        let released = host.stop_mdns();
        let http = host.free_server();
        let mdns = match host.free_mdns() {
            Some(freed) => Some(
                MdnsResources {
                    daemon: freed.daemon,
                    runtime: match released {
                        Some(runtime) => Some(runtime),
                        None => freed.runtime,
                    },
                },
            ),
            None => None,
        };
        HostResources { http, mdns }
    }
}

} // verus!
