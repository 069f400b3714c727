//! Verified core of the Stellarust dashboard: the server-sent-event
//! broadcaster, the directory-watch decisions, the server's address and CORS
//! settings, and the state machines of the browser components.

pub mod sse;
pub mod transport;
pub mod broadcaster;
pub mod broadcasterr;
pub mod watch;
pub mod file_reader;
pub mod data;
pub mod api;
pub mod server;
pub mod frontend;
