//! Core logic of a sandboxed terminal service: the input framing spoken
//! between the websocket server and the in-container terminal helper, the
//! decisions of both event loops, and the sandbox configuration.

pub mod inputproto;

pub mod session;
pub mod pty;
pub mod config;
pub mod sandbox;
pub mod uniqueptr;
