//! Asynchronous TLS streams: a blocking TLS engine driven from poll-based
//! tasks.
//!
//! The engine only knows blocking `read` and `write`. [`StdAdapter`] gives it
//! that interface over a non-blocking transport, turning "not ready" into the
//! would-block error; [`TlsStream`] lends the polling task's waker to the
//! adapter for exactly one engine call at a time, and turns would-block back
//! into `Poll::Pending`.

pub mod acceptor;
pub mod connect;
mod engine;
pub mod handshake;
pub mod host;
pub mod io_model;
pub mod std_adapter;
pub mod tls_stream;

pub use acceptor::{Error as AcceptError, TlsAcceptor};
pub use connect::{connect, HostError, TlsConnector};
pub use host::Host;
pub use std_adapter::StdAdapter;
pub use tls_stream::TlsStream;

pub use native_tls::{Certificate, Error, Identity, Protocol, Result};
