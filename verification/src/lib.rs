//! An embeddable local-service runtime: a static-file HTTP(S) server and a
//! local-network service advertiser, driven through a narrow handle boundary.
//!
//! The library holds what is decided: which addresses are accepted, how a
//! server moves between idle and running, which file a request may read and
//! how it is answered, which service types are announced, and what a call
//! across the boundary means when its handle or its texts are missing or
//! malformed. Each decision is stated as a contract and proved. Binding
//! sockets, reading files and awaiting connections are left to the caller,
//! who is handed an order on every start and reports back what happened.
//!
//! - [`server::address`]: the grammar of socket addresses.
//! - [`server::http_server`]: the lifecycle of the HTTP(S) server.
//! - [`server::tls`]: provisioning of a self-signed certificate.
//! - [`server::router`]: resolution of static files beneath a root.
//! - [`server::mdns_server`]: the lifecycle of the service advertiser.
//! - [`ffi`]: both servers behind handles that may be null.
//! - [`host`]: both servers behind one object.

pub mod error;
pub mod exchange;
pub mod ffi;
pub mod host;
pub mod server;
pub mod text;
pub mod types;

pub use error::CoreError;
pub use server::HttpServerState;
pub use types::{HttpRequest, HttpResponse, ServerConfig};
