//! The HTTP(S) server behind the handle boundary.
//!
//! A handle is an owned server or nothing; nothing stands for the null
//! handle. A call on the null handle does nothing and reports failure. A
//! text argument is a run of bytes or nothing; see [`text_or`].

use vstd::prelude::*;
use vstd::string::StringExecFns;
use vstd::utf8::valid_utf8;
use crate::ffi::text::{text_argument, text_or};
use crate::server::http_server::{
    refusal,
    start_outcome,
    stopped,
    HttpResources,
    HttpServerState,
    ServeOrder,
};
use crate::text::bytes_of;

verus! {

/// The address a server is started on where none is given.
pub open spec fn default_address() -> Seq<char> {
    "0.0.0.0:8080"@
}

/// The directory a server serves from where none is given.
pub open spec fn default_static_dir() -> Seq<char> {
    "/tmp"@
}

/// The answer to a start across the boundary.
pub struct StartReply {
    /// 1 on success, 0 on failure.
    pub code: i32,
    /// The order for the accept loop, on success.
    pub order: Option<ServeOrder>,
}

/// A handle to a new server that is not running.
pub fn ft_http_server_create() -> (server: Option<Box<HttpServerState>>)
    ensures
        server is Some,
        server->0.wf(),
        !server->0@.state.is_running,
        server->0@.state.config.is_none(),
        !server->0@.has_runtime,
{
    Some(Box::new(HttpServerState::new()))
}

/// Gives up a handle. The null handle gives nothing; any other hands out
/// what the server owned, to be dropped away from the scheduler's threads.
pub fn ft_http_server_free(server: Option<Box<HttpServerState>>) -> (resources: Option<
    HttpResources,
>)
    ensures
        resources is Some <==> server is Some,
        server is Some ==> {
            &&& resources->0.shutdown_tx.is_some() == server->0@.armed
            &&& resources->0.runtime.is_some() == server->0@.has_runtime
        },
{
    match server {
        Some(server) => {
            let state: HttpServerState = *server;
            Some(state.release())
        },
        None => None,
    }
}

/// Starts the server, on HTTPS where `use_https` is not zero.
///
/// Fails on the null handle and where either text is not UTF-8. A missing
/// address stands for `0.0.0.0:8080`, a missing directory for `/tmp`. The
/// rest is the start of the server itself: the code is 1 exactly when it
/// succeeded, and the server is left as it was whenever the code is 0.
pub fn ft_http_server_start(
    server: Option<&mut HttpServerState>,
    address: Option<&[u8]>,
    static_dir: Option<&[u8]>,
    use_https: i32,
) -> (reply: StartReply)
    ensures
        reply.code == 0 || reply.code == 1,
        reply.code == 1 <==> reply.order is Some,
        server is None ==> reply.code == 0,
        server is Some && old(server->0).wf() ==> final(server->0).wf(),
        server is Some && reply.code == 0 ==> final(server->0)@ == old(server->0)@,
        server is Some && reply.code == 1 ==> {
            &&& text_or(address, default_address()) is Some
            &&& text_or(static_dir, default_static_dir()) is Some
            &&& start_outcome(
                old(server->0)@,
                final(server->0)@,
                text_or(address, default_address())->0,
                text_or(static_dir, default_static_dir())->0,
                use_https != 0,
                Ok(reply.order->0),
            )
        },
        server is Some && text_or(address, default_address()) is Some && text_or(
            static_dir,
            default_static_dir(),
        ) is Some && use_https == 0 && old(server->0)@.has_runtime && refusal(
            old(server->0)@,
            text_or(address, default_address())->0,
        ) is None ==> reply.code == 1,
{
    let server = match server {
        Some(server) => server,
        None => {
            return StartReply { code: 0, order: None };
        },
    };
    let address = match text_argument(address, "0.0.0.0:8080") {
        Some(address) => address,
        None => {
            return StartReply { code: 0, order: None };
        },
    };
    let static_dir = match text_argument(static_dir, "/tmp") {
        Some(static_dir) => static_dir,
        None => {
            return StartReply { code: 0, order: None };
        },
    };
    let started = if use_https != 0 {
        server.start_https(address.as_str(), static_dir.as_str())
    } else {
        server.start(address.as_str(), static_dir.as_str())
    };
    match started {
        Ok(order) => StartReply { code: 1, order: Some(order) },
        Err(_) => StartReply { code: 0, order: None },
    }
}

/// Asks the server to stop. Does nothing on the null handle.
pub fn ft_http_server_stop(server: Option<&mut HttpServerState>)
    ensures
        server is Some && old(server->0).wf() ==> final(server->0).wf(),
        server is Some ==> final(server->0)@ == stopped(old(server->0)@),
{
    match server {
        Some(server) => {
            server.stop();
        },
        None => {},
    }
}

/// Whether the server is believed to run: 1 if so, 0 if not or on the null
/// handle.
pub fn ft_http_server_is_running(server: Option<&HttpServerState>) -> (code: i32)
    ensures
        code == if server is Some && server->0@.state.is_running {
            1i32
        } else {
            0i32
        },
{
    match server {
        Some(server) => if server.is_running() {
            1
        } else {
            0
        },
        None => 0,
    }
}

/// The reply to a request on the null handle.
pub open spec fn null_server_reply() -> Seq<char> {
    "{\"error\": \"server is null\"}"@
}

/// The reply that echoes the headers of a request with status 200.
pub open spec fn echo_reply(headers: Seq<char>) -> Seq<char> {
    "{\"status_code\": 200, \"headers\": "@ + headers + "}"@
}

/// The reply to a request handed over for custom dispatch, or nothing where
/// there is no reply to give.
///
/// On the null handle the reply names the error. Otherwise each text that
/// is given must be UTF-8, and the reply echoes the headers, `{}` where
/// none are given. A reply that holds a zero byte cannot cross the boundary
/// and is not given.
pub open spec fn request_reply(
    server_present: bool,
    method: Option<&[u8]>,
    path: Option<&[u8]>,
    headers: Option<&[u8]>,
    body: Option<&[u8]>,
) -> Option<Seq<char>> {
    if !server_present {
        Some(null_server_reply())
    } else if text_or(method, "GET"@) is None || text_or(path, "/"@) is None || text_or(
        headers,
        "{}"@,
    ) is None || (body is Some && !valid_utf8(body->0@)) {
        None
    } else if bytes_of(echo_reply(text_or(headers, "{}"@)->0)).contains(0u8) {
        None
    } else {
        Some(echo_reply(text_or(headers, "{}"@)->0))
    }
}

/// Whether a text holds a zero byte.
pub fn holds_zero(text: &str) -> (found: bool)
    ensures
        found == bytes_of(text@).contains(0u8),
{
    let bytes = text.as_bytes();
    let mut i: usize = 0;
    while i < bytes.len()
        invariant
            i <= bytes.len(),
            bytes@ == bytes_of(text@),
            forall|j: int| 0 <= j < i ==> bytes@[j] != 0u8,
        decreases bytes.len() - i,
    {
        if bytes[i] == 0 {
            assert(bytes@[i as int] == 0u8);
            return true;
        }
        i = i + 1;
    }
    false
}

/// Answers a request handed over for custom dispatch; see
/// [`request_reply`].
pub fn ft_http_server_handle_request(
    server: Option<&HttpServerState>,
    method: Option<&[u8]>,
    path: Option<&[u8]>,
    headers: Option<&[u8]>,
    body: Option<&[u8]>,
) -> (reply: Option<String>)
    ensures
        match request_reply(server is Some, method, path, headers, body) {
            Some(text) => reply is Some && reply->0@ == text,
            None => reply is None,
        },
{
    if server.is_none() {
        return Some("{\"error\": \"server is null\"}".to_owned());
    }
    if text_argument(method, "GET").is_none() {
        return None;
    }
    if text_argument(path, "/").is_none() {
        return None;
    }
    let headers = match text_argument(headers, "{}") {
        Some(headers) => headers,
        None => {
            return None;
        },
    };
    match body {
        Some(bytes) => {
            if text_argument(Some(bytes), "").is_none() {
                return None;
            }
        },
        None => {},
    }
    let reply = String::from_str("{\"status_code\": 200, \"headers\": ").concat(
        headers.as_str(),
    ).concat("}");
    if holds_zero(reply.as_str()) {
        None
    } else {
        Some(reply)
    }
}

} // verus!
