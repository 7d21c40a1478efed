//! Records shared by the servers and the handle boundary.

use vstd::prelude::*;

verus! {

/// How a server was asked to serve. Fixed once a server is started, and
/// replaced as a whole by the next successful start.
#[derive(Clone, Debug)]
pub struct ServerConfig {
    /// The address to bind, an IP literal and a port.
    pub address: String,
    /// The directory beneath which files are served.
    pub static_dir: String,
    /// Whether connections are TLS-terminated.
    pub use_https: bool,
    /// Where a certificate would be read from. No start reads one: a server
    /// on HTTPS always generates its own, and every start records none.
    pub cert_path: Option<String>,
    /// Where a private key would be read from. As with the certificate,
    /// every start records none.
    pub key_path: Option<String>,
}

/// A configuration as plain values.
pub struct ServerConfigView {
    pub address: Seq<char>,
    pub static_dir: Seq<char>,
    pub use_https: bool,
    pub cert_path: Option<Seq<char>>,
    pub key_path: Option<Seq<char>>,
}

/// The text held by an optional string.
pub open spec fn text_of(s: Option<String>) -> Option<Seq<char>> {
    match s {
        Some(t) => Some(t@),
        None => None,
    }
}

impl View for ServerConfig {
    type V = ServerConfigView;

    open spec fn view(&self) -> ServerConfigView {
        ServerConfigView {
            address: self.address@,
            static_dir: self.static_dir@,
            use_https: self.use_https,
            cert_path: text_of(self.cert_path),
            key_path: text_of(self.key_path),
        }
    }
}

/// A request handed over by the host for custom dispatch.
#[derive(Clone, Debug)]
pub struct HttpRequest {
    /// The method, such as `GET`.
    pub method: String,
    /// The path requested.
    pub path: String,
    /// The headers, as a JSON object.
    pub headers: String,
    /// The body, where there is one.
    pub body: Option<String>,
}

/// A response handed back to the host.
#[derive(Clone, Debug)]
pub struct HttpResponse {
    /// The status code.
    pub status_code: i32,
    /// The body.
    pub body: String,
    /// The headers, as a JSON object.
    pub headers: String,
}

/// A message on a web socket.
#[derive(Clone, Debug)]
pub struct WebSocketMessage {
    /// What the message says.
    pub content: String,
    /// When it was sent, in milliseconds since the Unix epoch.
    pub timestamp: u64,
}

/// What is known of one HTTP(S) server: whether it is believed to run, how
/// many clients are connected, and how it was last configured.
#[derive(Clone, Debug)]
pub struct ServerState {
    /// Whether the accept loop is believed active.
    pub is_running: bool,
    /// The number of connected clients.
    pub connected_clients: usize,
    /// The configuration of the last successful start.
    pub config: Option<ServerConfig>,
}

/// A server state as plain values.
pub struct ServerStateView {
    pub is_running: bool,
    pub connected_clients: nat,
    pub config: Option<ServerConfigView>,
}

impl View for ServerState {
    type V = ServerStateView;

    open spec fn view(&self) -> ServerStateView {
        ServerStateView {
            is_running: self.is_running,
            connected_clients: self.connected_clients as nat,
            config: match self.config {
                Some(c) => Some(c@),
                None => None,
            },
        }
    }
}

impl Default for ServerState {
    /// The state of a server that was never started.
    fn default() -> (state: ServerState)
        ensures
            !state.is_running,
            state.connected_clients == 0,
            state.config.is_none(),
    {
        ServerState { is_running: false, connected_clients: 0, config: None }
    }
}

} // verus!
