//! Connection engine of a terminal network debugging tool: payload decoding,
//! the event model, the session registry and the handler state machines.

pub mod channel;
pub mod client;
pub mod clock;
pub mod console;
pub mod error;
pub mod factory;
pub mod handler;
pub mod hex;
pub mod http;
pub mod http2;
pub mod http3;
pub mod lifecycle;
pub mod message;
pub mod payload;
pub mod registry;
pub mod server;
pub mod text;
pub mod udp;
pub mod websocket;
