//! The connection-acceptance and request-dispatch core of an HTTP/2-only RPC
//! server transport, without the I/O.
//!
//! The crate holds every decision that such a server takes between a listen
//! address and a running service: the order of its start-up, which failures
//! end it and which only end a connection, how accepted connections are routed
//! through an optional encryption upgrade, and how each connection's service is
//! wrapped by an optional interceptor. The sockets, the handshake and the
//! protocol engine belong to the caller, who reports their outcomes to the
//! functions of this crate and carries out what they answer.

pub mod builder;
pub mod error;
pub mod incoming;
pub mod isolation;
pub mod service;

pub use builder::{Binding, Builder, Server, Serving, Startup, TlsCheck, HTTP2_ONLY};
pub use error::{tagged, Error, ErrorKind};
pub use incoming::{consume, incoming, Consumed, Incoming, Routed, Stream, TcpIncoming};
pub use service::{ErasedService, Intercepted, Interceptor, MakeSvc, Svc};
