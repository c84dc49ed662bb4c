//! A thread-per-core gRPC server substrate.
//!
//! Each physical CPU runs an independent single-threaded cooperative
//! scheduler that accepts its own TCP connections and drives HTTP/2
//! connection state machines to completion on the core that accepted them.
//! This crate holds the verified core of that runtime adapter: the bounded
//! admission policy, the acceptor state machine, the byte-stream read
//! bridge, the shutdown signal, and the supervisor's planning and join
//! logic. The unverified plumbing that wires these decisions to the
//! scheduler, the HTTP/2 engine and the sockets lives outside the library.

pub mod acceptor;
pub mod admission;
pub mod bridge;
pub mod gmf_server;
pub mod shutdown;
pub mod supervisor;
