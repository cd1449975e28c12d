//! A liveness and status reporting service: the shapes that client and server
//! exchange, the server's uptime bookkeeping and lifecycle, and the client's
//! single-attempt call with its classified failures.

pub mod client;
pub mod clock;
pub mod contract;
pub mod diagnostics;
pub mod lifecycle;
pub mod rpc;
pub mod server;
