//! Browser impersonation profiles: the TLS, HTTP/2 and header descriptions
//! that make a connection look like one opened by a given browser build.

pub mod bytes;
pub mod chrome;
pub mod connector;
pub mod error;
pub mod header_laws;
pub mod header_map;
pub mod headers;
pub mod hello;
pub mod hello_wire;
pub mod http2;
pub mod http2_frames;
pub mod http2_settings;
pub mod permute;
pub mod profile;
pub mod registry;
pub mod safari;
pub mod text;
pub mod tls;
pub mod wire;
