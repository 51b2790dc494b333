//! Core logic of a small multi-client echo server: the connection registry,
//! the listener's accept-poll decisions, the per-connection echo step, and
//! shutdown coordination. The surrounding process (sockets, threads, console)
//! drives these functions and performs the I/O they decide on.

pub mod conn;
pub mod listener;
pub mod registry;
pub mod session;
pub mod shutdown;
