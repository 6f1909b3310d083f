//! A Wayland protocol engine for a proxy between clients and a compositor:
//! the wire format, the framing of requests, the encoding of events, the
//! per-connection session state machine that decides, for every client
//! request, which events go back to the client and which bytes are relayed
//! to the compositor, the queue of outgoing events, and a small standalone
//! server that answers a client on its own.

pub mod buffer;
pub mod codec;
pub mod event;
pub mod interface;
pub mod message;
pub mod protocol;
pub mod resource;
pub mod wire;
pub mod text;
pub mod session;
pub mod server;
pub mod sink;
pub mod upstream;
