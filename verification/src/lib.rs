//! A transport-layer adapter that upgrades byte connections to TLS.
//!
//! The crate decides and leaves every I/O to its caller. It has three parts.
//!
//! * A [`HttpsConnector`] decides, from the scheme of a target and a policy,
//!   whether a connection is made in plaintext, protected with TLS, or not at
//!   all, and names the server to verify.
//! * A [`TlsAcceptor`] turns every inbound connection into a protected stream
//!   at once, so that no handshake holds up the next accept.
//! * A [`MaybeHttpsStream`] is a plain or a protected stream behind one
//!   interface. Its protected arm is a [`TlsStream`], which starts in its
//!   handshake, completes it once on the first read or write, and from then
//!   on moves plaintext and ciphertext between the caller, the TLS session
//!   and the connection.
//!
//! An operation that cannot go on yet is [`Progress::Pending`]. The caller
//! performs the reads and writes that the crate asks for and reports what
//! came of them; the crate answers with the next step or with the result.

pub mod acceptor;
pub mod config;
pub mod connector;
pub mod error;
pub mod progress;
pub mod server_name;
pub mod stream;
pub mod target;
pub mod text;
pub mod tls_stream;

pub use crate::acceptor::TlsAcceptor;
pub use crate::connector::HttpsConnector;
pub use crate::error::ErrorKind;
pub use crate::progress::Progress;
pub use crate::server_name::{
    DefaultServerNameResolver, FixedServerNameResolver, ResolveServerName, ServerName,
};
pub use crate::stream::MaybeHttpsStream;
pub use crate::target::Target;
pub use crate::tls_stream::TlsStream;
