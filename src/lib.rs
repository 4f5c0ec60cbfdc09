//! The tunnel of an operator command-line tool: a local Unix socket whose
//! clients are relayed, byte for byte, to a remote TLS endpoint. The library
//! holds the decisions (paths, dialing steps, relaying, counting, the server's
//! life cycle) and the small data types the tool passes around.
pub mod api;
pub mod context;
pub mod dial;
pub mod dirs;
pub mod node_port;
pub mod registry;
pub mod relay;
pub mod server;
pub mod socket_path;
pub mod text;
