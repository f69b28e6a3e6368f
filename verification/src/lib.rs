//! Decisions of a server that exposes a pseudo-terminal session over HTTP and
//! WebSocket.
//!
//! Everything that takes time or reaches the outside (locks, sockets, timers, the
//! session itself) is named here as an action; what came of it is handed back as
//! an event. The rest is decided here: what a query asks for ([`range`],
//! [`screen`], [`wait`]), how a request is served ([`handler`]) and answered
//! ([`reply`]), where its endpoint is found ([`routes`]), how a WebSocket
//! connection goes ([`ws`]), and when the server ends ([`lifecycle`]).

pub mod handler;
pub mod handler_laws;
pub mod json;
pub mod lifecycle;
pub mod lifecycle_laws;
pub mod number;
pub mod range;
pub mod reply;
pub mod routes;
pub mod screen;
pub mod server_laws;
pub mod time;
pub mod wait;
pub mod watch;
pub mod ws;
pub mod ws_laws;
