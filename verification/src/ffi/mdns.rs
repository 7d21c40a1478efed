//! The service advertiser behind the handle boundary.
//!
//! A handle is an owned advertiser or nothing; nothing stands for the null
//! handle. A call on the null handle does nothing and reports failure. A
//! text argument is a run of bytes or nothing; see [`text_or`].

use std::sync::Arc;
use vstd::prelude::*;
use tokio::runtime::Runtime;
use crate::ffi::text::{text_argument, text_or};
use crate::server::mdns_server::{
    advertised,
    fullname_of,
    is_registrable_type,
    withdrawn,
    MdnsResources,
    MdnsServerState,
    MonitorOrder,
};
use crate::text::bytes_of;

verus! {

/// The service type that is announced where none is given.
pub open spec fn default_service_type() -> Seq<char> {
    "_service._tcp.local."@
}

/// The instance name that is announced where none is given.
pub open spec fn default_instance_name() -> Seq<char> {
    "Instance"@
}

/// The host name that is announced where none is given.
pub open spec fn default_hostname() -> Seq<char> {
    "server"@
}

/// The answer to a start across the boundary.
pub struct AdvertiseReply {
    /// 1 on success, 0 on failure.
    pub code: i32,
    /// The order for the monitor, on success.
    pub order: Option<MonitorOrder>,
}

/// A handle to a new advertiser that announces nothing.
pub fn ft_mdns_server_create() -> (server: Option<Box<MdnsServerState>>)
    ensures
        server is Some,
        server->0.wf(),
        !server->0@.is_registered,
{
    Some(Box::new(MdnsServerState::new()))
}

/// Gives up a handle. The null handle gives nothing; any other hands out
/// what the advertiser owned, to be dropped away from the scheduler's
/// threads.
pub fn ft_mdns_server_free(server: Option<Box<MdnsServerState>>) -> (resources: Option<
    MdnsResources,
>)
    ensures
        resources is Some <==> server is Some,
        server is Some ==> {
            &&& resources->0.daemon.is_some() == server->0@.has_daemon
            &&& resources->0.runtime.is_some() == server->0@.has_runtime
        },
{
    match server {
        Some(server) => {
            let state: MdnsServerState = *server;
            Some(state.release())
        },
        None => None,
    }
}

/// Registers the service.
///
/// Fails on the null handle and where any text is not UTF-8. A missing
/// service type stands for `_service._tcp.local.`, a missing instance name
/// for `Instance`, a missing host name for `server`. The rest is the start
/// of the advertiser itself: the code is 1 exactly when it succeeded, and
/// the advertiser is left as it was whenever the code is 0.
pub fn ft_mdns_server_start(
    server: Option<&mut MdnsServerState>,
    service_type: Option<&[u8]>,
    instance_name: Option<&[u8]>,
    hostname: Option<&[u8]>,
    port: u16,
) -> (reply: AdvertiseReply)
    ensures
        reply.code == 0 || reply.code == 1,
        reply.code == 1 <==> reply.order is Some,
        server is None ==> reply.code == 0,
        server is Some && old(server->0).wf() ==> final(server->0).wf(),
        server is Some && reply.code == 0 ==> final(server->0)@ == old(server->0)@,
        server is Some && reply.code == 1 ==> {
            &&& !old(server->0)@.is_registered
            &&& text_or(service_type, default_service_type()) is Some
            &&& text_or(instance_name, default_instance_name()) is Some
            &&& text_or(hostname, default_hostname()) is Some
            &&& is_registrable_type(bytes_of(text_or(service_type, default_service_type())->0))
            &&& final(server->0)@ == advertised(
                text_or(service_type, default_service_type())->0,
                text_or(instance_name, default_instance_name())->0,
                text_or(hostname, default_hostname())->0,
                port,
            )
            &&& reply.order->0.fullname@ == fullname_of(
                text_or(instance_name, default_instance_name())->0,
                text_or(service_type, default_service_type())->0,
            )
        },
{
    let server = match server {
        Some(server) => server,
        None => {
            return AdvertiseReply { code: 0, order: None };
        },
    };
    let service_type = match text_argument(service_type, "_service._tcp.local.") {
        Some(text) => text,
        None => {
            return AdvertiseReply { code: 0, order: None };
        },
    };
    let instance_name = match text_argument(instance_name, "Instance") {
        Some(text) => text,
        None => {
            return AdvertiseReply { code: 0, order: None };
        },
    };
    let hostname = match text_argument(hostname, "server") {
        Some(text) => text,
        None => {
            return AdvertiseReply { code: 0, order: None };
        },
    };
    match server.start(service_type.as_str(), instance_name.as_str(), hostname.as_str(), port) {
        Ok(order) => AdvertiseReply { code: 1, order: Some(order) },
        Err(_) => AdvertiseReply { code: 0, order: None },
    }
}

/// Withdraws the service and hands out the scheduler that was released, to
/// be dropped away from its own threads. Does nothing on the null handle.
pub fn ft_mdns_server_stop(server: Option<&mut MdnsServerState>) -> (released: Option<
    Arc<Runtime>,
>)
    ensures
        server is Some && old(server->0).wf() ==> final(server->0).wf(),
        server is Some ==> final(server->0)@ == if old(server->0)@.is_registered {
            withdrawn(old(server->0)@)
        } else {
            old(server->0)@
        },
        released is Some <==> server is Some && old(server->0)@.is_registered && old(
            server->0,
        )@.has_runtime,
{
    match server {
        Some(server) => server.stop(),
        None => None,
    }
}

/// Whether the service is registered: 1 if so, 0 if not or on the null
/// handle.
pub fn ft_mdns_server_is_running(server: Option<&MdnsServerState>) -> (code: i32)
    ensures
        code == if server is Some && server->0@.is_registered {
            1i32
        } else {
            0i32
        },
{
    match server {
        Some(server) => if server.is_running() {
            1
        } else {
            0
        },
        None => 0,
    }
}

} // verus!
