//! The lifecycle of the service advertiser: one named service, announced on
//! the local network from a start until a stop.
//!
//! The handle owns the responder daemon and the scheduler on which its
//! monitor runs; both exist exactly while the service is registered. The
//! monitor waits for daemon events and so lives with the caller: a start
//! hands out a [`MonitorOrder`], and [`monitor_verdict`] decides after each
//! wait whether the monitor goes on.

use std::sync::Arc;
use vstd::prelude::*;
use vstd::string::StringExecFns;
use mdns_sd::{ServiceDaemon, ServiceInfo};
use tokio::runtime::Runtime;
use crate::error::{CoreError, CoreErrorView};
use crate::server::address::DOT;
use crate::server::http_server::{new_runtime, share_runtime, LoopVerdict};
use crate::text::{after_last, bytes_of, ends_with, ends_with_at, has_suffix, last_index_of};

verus! {

/// A handle to the responder daemon, carried through as it came.
#[verifier::external_type_specification]
#[verifier::external_body]
pub struct ExServiceDaemon(ServiceDaemon);

/// What is announced: a service type, an instance of it, the host that
/// offers it and the port it listens on, with the addresses and properties
/// that go with them.
pub struct ServiceRecord {
    /// The service type with its domain, such as `_game._tcp.local.`.
    pub service_type: String,
    /// The name of this instance.
    pub instance_name: String,
    /// The fully qualified name of the host, ending in `.local.`.
    pub host_name: String,
    /// The addresses of the host, separated by commas; empty where none is
    /// given.
    pub addresses: String,
    /// The port.
    pub port: u16,
    /// The properties, each a key and a value.
    pub properties: Vec<(String, String)>,
    /// Whether the responder fills in and follows the addresses of the host
    /// by itself.
    pub addr_auto: bool,
}

/// The bytes of `._tcp.local.`, one of the two domains a service type may
/// end with.
pub open spec fn tcp_domain() -> Seq<u8> {
    bytes_of("._tcp.local."@)
}

/// The bytes of `._udp.local.`, the other domain.
pub open spec fn udp_domain() -> Seq<u8> {
    bytes_of("._udp.local."@)
}

/// The bytes of `._sub.`, which separates a subtype from its service type.
pub open spec fn subtype_mark() -> Seq<u8> {
    bytes_of("._sub."@)
}

/// Where the service name begins in a service type: right after the last
/// dot before the twelve bytes of the domain, or at the start.
pub open spec fn label_start(t: Seq<u8>) -> int {
    last_index_of(t.take(t.len() - 12), DOT) + 1
}

/// The service types that are handed to the responder: texts that end with
/// one of the two domains, with a service name before the domain that is
/// not empty, is not only the tail of a subtype mark, and begins with a
/// one-byte character.
///
/// The responder looks at the first byte of the label that precedes the
/// twelve bytes of the domain. For a type of this shape that label lies
/// within the type, is not empty, and its first byte is a character.
pub open spec fn is_registrable_type(t: Seq<u8>) -> bool {
    &&& t.len() > 12
    &&& (has_suffix(t, tcp_domain()) || has_suffix(t, udp_domain()))
    &&& t[t.len() - 13] != DOT
    &&& !has_suffix(t.take(t.len() - 11), subtype_mark())
    &&& t[label_start(t)] < 128
}

/// Whether a service type is one that is handed to the responder.
pub fn registrable_type(service_type: &str) -> (ok: bool)
    ensures
        ok == is_registrable_type(bytes_of(service_type@)),
{
    let t = service_type.as_bytes();
    let n: usize = t.len();
    if n <= 12 {
        return false;
    }
    if !(ends_with(t, "._tcp.local.".as_bytes()) || ends_with(t, "._udp.local.".as_bytes())) {
        return false;
    }
    if t[n - 13] == DOT || ends_with_at(t, n - 11, "._sub.".as_bytes()) {
        return false;
    }
    let start: usize = after_last(t, n - 12, DOT);
    t[start] < 128
}

/// Calls `ServiceDaemon::new`, which opens a signalling socket and spawns
/// the daemon's thread. Whether that succeeds depends on the machine, so
/// nothing is claimed of the result; `None` stands for its error.
#[verifier::external_body]
fn new_daemon() -> (daemon: Option<ServiceDaemon>) {
    ServiceDaemon::new().ok()
}

/// Calls `Clone::clone` of `ServiceDaemon`: another handle to the same
/// daemon.
#[verifier::external_body]
fn share_daemon(daemon: &ServiceDaemon) -> (shared: ServiceDaemon) {
    daemon.clone()
}

/// Writes the record as a `ServiceInfo` with automatic address resolution
/// enabled, and calls `ServiceDaemon::register` on it. Whether the daemon
/// takes it depends on the daemon, so nothing is claimed of the result;
/// `false` stands for any error. The registration slices the label before
/// the domain at its first byte, which is why the service type must be of
/// the shape required; and the record must ask for automatic addresses,
/// since that is what is enabled.
#[verifier::external_body]
fn register_record(daemon: &ServiceDaemon, record: &ServiceRecord) -> (accepted: bool)
    requires
        is_registrable_type(bytes_of(record.service_type@)),
        record.addr_auto,
{
    match ServiceInfo::new(
        record.service_type.as_str(),
        record.instance_name.as_str(),
        record.host_name.as_str(),
        record.addresses.as_str(),
        record.port,
        record.properties.as_slice(),
    ) {
        Ok(info) => daemon.register(info.enable_addr_auto()).is_ok(),
        Err(_) => false,
    }
}

/// What a started advertiser hands to whoever runs its monitor.
pub struct MonitorOrder {
    /// A handle to the daemon whose events are monitored.
    pub daemon: ServiceDaemon,
    /// The scheduler on which the monitor runs.
    pub runtime: Arc<Runtime>,
    /// The full name of the service, for the monitor's records.
    pub fullname: String,
}

/// What a handle owned, taken apart for release.
pub struct MdnsResources {
    /// The daemon, where the service was registered.
    pub daemon: Option<ServiceDaemon>,
    /// The scheduler, where the service was registered.
    pub runtime: Option<Arc<Runtime>>,
}

/// What one wait of the monitor ended in.
#[derive(Clone, Copy, Debug, PartialEq, Eq, Structural)]
pub enum MonitorSignal {
    /// The daemon reported something that is no error.
    Event,
    /// The daemon reported an error.
    Error,
    /// Nothing came within the wait, or the wait itself failed.
    Silence,
}

/// What the monitor does after a wait: it leaves only on an error event.
/// The registration stays marked as it is in either case.
pub fn monitor_verdict(signal: MonitorSignal) -> (verdict: LoopVerdict)
    ensures
        verdict == if signal == MonitorSignal::Error {
            LoopVerdict::Exit
        } else {
            LoopVerdict::Continue
        },
{
    match signal {
        MonitorSignal::Error => LoopVerdict::Exit,
        MonitorSignal::Event | MonitorSignal::Silence => LoopVerdict::Continue,
    }
}

/// The name of the host as it is announced: the given name with `.local.`
/// after it.
pub open spec fn announced_host(hostname: Seq<char>) -> Seq<char> {
    hostname + ".local."@
}

/// The full name of a service: the instance, a dot, the type, a dot.
pub open spec fn fullname_of(instance_name: Seq<char>, service_type: Seq<char>) -> Seq<char> {
    instance_name + "."@ + service_type + "."@
}

/// The record that is registered for a service: the type, the instance and
/// the port as they are given, and the host under its announced name. It
/// names no address and no property, and leaves the addresses to the
/// responder.
pub fn service_record(service_type: &str, instance_name: &str, hostname: &str, port: u16) -> (record:
    ServiceRecord)
    ensures
        record.service_type@ == service_type@,
        record.instance_name@ == instance_name@,
        record.host_name@ == announced_host(hostname@),
        record.addresses@.len() == 0,
        record.port == port,
        record.properties@.len() == 0,
        record.addr_auto,
{
    ServiceRecord {
        service_type: service_type.to_owned(),
        instance_name: instance_name.to_owned(),
        host_name: String::from_str(hostname).concat(".local."),
        addresses: String::new(),
        port,
        properties: Vec::new(),
        addr_auto: true,
    }
}

/// A handle to one service advertiser.
pub struct MdnsServerState {
    daemon: Option<ServiceDaemon>,
    runtime: Option<Arc<Runtime>>,
    is_registered: bool,
    service_type: String,
    instance_name: String,
    hostname: String,
    port: u16,
}

/// An advertiser as plain values.
pub struct MdnsServerView {
    /// Whether the service is registered.
    pub is_registered: bool,
    /// Whether the handle holds a daemon.
    pub has_daemon: bool,
    /// Whether the handle holds a scheduler.
    pub has_runtime: bool,
    /// The service type of the last registration.
    pub service_type: Seq<char>,
    /// The instance name of the last registration.
    pub instance_name: Seq<char>,
    /// The host name of the last registration, as it was given.
    pub hostname: Seq<char>,
    /// The port of the last registration.
    pub port: u16,
}

/// The advertiser after a successful start.
pub open spec fn advertised(
    service_type: Seq<char>,
    instance_name: Seq<char>,
    hostname: Seq<char>,
    port: u16,
) -> MdnsServerView {
    MdnsServerView {
        is_registered: true,
        has_daemon: true,
        has_runtime: true,
        service_type,
        instance_name,
        hostname,
        port,
    }
}

/// The advertiser after a stop of a registered service: the daemon and the
/// scheduler are released and the registration is withdrawn; what was
/// registered is remembered.
pub open spec fn withdrawn(pre: MdnsServerView) -> MdnsServerView {
    MdnsServerView { is_registered: false, has_daemon: false, has_runtime: false, ..pre }
}

impl View for MdnsServerState {
    type V = MdnsServerView;

    closed spec fn view(&self) -> MdnsServerView {
        MdnsServerView {
            is_registered: self.is_registered,
            has_daemon: self.daemon.is_some(),
            has_runtime: self.runtime.is_some(),
            service_type: self.service_type@,
            instance_name: self.instance_name@,
            hostname: self.hostname@,
            port: self.port,
        }
    }
}

impl Default for MdnsServerState {
    /// A handle to an advertiser that announces nothing.
    fn default() -> (server: MdnsServerState)
        ensures
            server.wf(),
            !server@.is_registered,
            server@.service_type.len() == 0,
            server@.instance_name.len() == 0,
            server@.hostname.len() == 0,
            server@.port == 0,
    {
        MdnsServerState::new()
    }
}

impl MdnsServerState {
    /// What holds of every handle: the daemon and the scheduler exist
    /// exactly while the service is registered.
    pub open spec fn wf(&self) -> bool {
        &&& self@.has_daemon == self@.is_registered
        &&& self@.has_runtime == self@.is_registered
    }

    /// A handle to an advertiser that announces nothing.
    pub fn new() -> (server: MdnsServerState)
        ensures
            server.wf(),
            !server@.is_registered,
            server@.service_type.len() == 0,
            server@.instance_name.len() == 0,
            server@.hostname.len() == 0,
            server@.port == 0,
    {
        MdnsServerState {
            daemon: None,
            runtime: None,
            is_registered: false,
            service_type: String::new(),
            instance_name: String::new(),
            hostname: String::new(),
            port: 0,
        }
    }

    /// Whether the service is registered.
    pub fn is_running(&self) -> (running: bool)
        ensures
            running == self@.is_registered,
    {
        self.is_registered
    }

    /// The full name of the service of the last registration, put together
    /// from its parts each time it is asked for.
    pub fn service_fullname(&self) -> (name: String)
        ensures
            name@ == fullname_of(self@.instance_name, self@.service_type),
    {
        self.instance_name.clone().concat(".").concat(self.service_type.as_str()).concat(".")
    }

    /// Consumes the handle and hands out what it owned. Letting go of a
    /// scheduler must not happen on one of its own threads, so the caller
    /// decides where the parts are dropped.
    pub fn release(self) -> (resources: MdnsResources)
        ensures
            resources.daemon.is_some() == self@.has_daemon,
            resources.runtime.is_some() == self@.has_runtime,
    {
        MdnsResources { daemon: self.daemon, runtime: self.runtime }
    }

    /// Registers the service and hands out the order for its monitor.
    ///
    /// Refused with [`CoreError::AlreadyRunning`] while a service is
    /// registered. Otherwise a scheduler and a daemon are created and the
    /// record is registered under the host name followed by `.local.`. A
    /// service type that the responder cannot take, and any failure on the
    /// way, give [`CoreError::Unknown`]. On success the handle holds the
    /// daemon and the scheduler and remembers what it registered; on every
    /// error it is left as it was.
    pub fn start(&mut self, service_type: &str, instance_name: &str, hostname: &str, port: u16) -> (r:
        Result<MonitorOrder, CoreError>)
        ensures
            old(self).wf() ==> final(self).wf(),
            match r {
                Ok(order) => {
                    &&& !old(self)@.is_registered
                    &&& is_registrable_type(bytes_of(service_type@))
                    &&& final(self)@ == advertised(service_type@, instance_name@, hostname@, port)
                    &&& order.fullname@ == fullname_of(instance_name@, service_type@)
                },
                Err(e) => {
                    &&& final(self)@ == old(self)@
                    &&& e@ == if old(self)@.is_registered {
                        CoreErrorView::AlreadyRunning
                    } else {
                        CoreErrorView::Unknown
                    }
                },
            },
    {
        if self.is_registered {
            return Err(CoreError::AlreadyRunning);
        }
        if !registrable_type(service_type) {
            return Err(CoreError::Unknown);
        }
        let runtime = match new_runtime() {
            Some(runtime) => runtime,
            None => {
                return Err(CoreError::Unknown);
            },
        };
        let daemon = match new_daemon() {
            Some(daemon) => daemon,
            None => {
                return Err(CoreError::Unknown);
            },
        };
        let record = service_record(service_type, instance_name, hostname, port);
        if !register_record(&daemon, &record) {
            return Err(CoreError::Unknown);
        }
        self.adopt(daemon, runtime, service_type, instance_name, hostname, port)
    }

    /// Takes in a registration that the daemon accepted: the handle holds
    /// the daemon and the scheduler from now on, remembers what was
    /// registered, and hands out the order for the monitor. Refused with
    /// [`CoreError::AlreadyRunning`] while a service is registered; the
    /// handle is then left as it was.
    pub fn adopt(
        &mut self,
        daemon: ServiceDaemon,
        runtime: Arc<Runtime>,
        service_type: &str,
        instance_name: &str,
        hostname: &str,
        port: u16,
    ) -> (r: Result<MonitorOrder, CoreError>)
        ensures
            old(self).wf() ==> final(self).wf(),
            old(self)@.is_registered ==> r is Err && r->Err_0@ == CoreErrorView::AlreadyRunning
                && final(self)@ == old(self)@,
            !old(self)@.is_registered ==> r is Ok && final(self)@ == advertised(
                service_type@,
                instance_name@,
                hostname@,
                port,
            ) && r->Ok_0.fullname@ == fullname_of(instance_name@, service_type@),
    {
        if self.is_registered {
            return Err(CoreError::AlreadyRunning);
        }
        let order = MonitorOrder {
            daemon: share_daemon(&daemon),
            runtime: share_runtime(&runtime),
            fullname: String::from_str(instance_name).concat(".").concat(service_type).concat("."),
        };
        self.daemon = Some(daemon);
        self.runtime = Some(runtime);
        self.is_registered = true;
        self.service_type = service_type.to_owned();
        self.instance_name = instance_name.to_owned();
        self.hostname = hostname.to_owned();
        self.port = port;
        Ok(order)
    }

    /// Withdraws the service. Nothing happens where none is registered.
    /// Otherwise the daemon is let go, the service is marked as not
    /// registered, and the scheduler is released and handed out: it must
    /// not be dropped on one of its own threads, so the caller decides
    /// where it goes.
    pub fn stop(&mut self) -> (released: Option<Arc<Runtime>>)
        ensures
            old(self).wf() ==> final(self).wf(),
            final(self)@ == if old(self)@.is_registered {
                withdrawn(old(self)@)
            } else {
                old(self)@
            },
            released is Some <==> old(self)@.is_registered && old(self)@.has_runtime,
    {
        if !self.is_registered {
            return None;
        }
        self.daemon = None;
        self.is_registered = false;
        self.runtime.take()
    }
}

} // verus!
