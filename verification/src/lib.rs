//! The decision core of an RTP proxy: what a session is, how its sockets are set up, what each
//! forwarding task does with a packet, how sessions are registered and removed, and how control
//! requests are answered.
//!
//! Sockets, tasks and channels are not here. A caller performs the input and output that this
//! library asks for, hands back what came of it, and carries out the next step it is given.

pub mod addr;
pub mod clock;
pub mod config;
pub mod error;
pub mod grpc_server;
pub mod guarantees;
pub mod model;
pub mod payload;
pub mod properties;
pub mod proto;
pub mod session;
pub mod text;
pub mod transport;
