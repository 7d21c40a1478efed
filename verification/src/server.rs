//! The two embedded servers and what they are built from.

pub mod address;
pub mod http_server;
pub mod mdns_server;
pub mod router;
pub mod tls;

pub use http_server::HttpServerState;
pub use mdns_server::MdnsServerState;
