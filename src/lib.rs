//! Message transports for the Model Context Protocol: the wire shape of a
//! message, its framings, the state machines of each substrate, the HTTP/2
//! request router with its CORS rules, TLS material checks and the
//! authentication handshake.

pub mod error;
pub mod text;
pub mod json;
pub mod message;
pub mod framing;
pub mod transport;
pub mod fanout;
pub mod http2;
pub mod tls;
pub mod auth;
pub mod websocket;
pub mod memory;
pub mod sse;
pub mod config;
pub mod schema;
pub mod tui;
