//! The handle boundary: the servers as a foreign host drives them, through
//! handles that may be null and texts that may be null or malformed.

pub mod mdns;
pub mod server;
pub mod text;
