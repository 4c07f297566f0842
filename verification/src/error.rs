//! The groups that the errors of this crate fall into.

use vstd::prelude::*;

verus! {

/// The groups that callers tell errors apart by.
///
/// A connection that is not ready is no error and has no group: it is the
/// `Pending` of [`crate::progress::Progress`].
#[derive(Debug, Clone, Copy, PartialEq, Eq, Structural)]
pub enum ErrorKind {
    /// The network failed: the host could not be reached or the connection
    /// broke. Such an error is passed on as it came and never tried again.
    Transport,
    /// The TLS engine refused what the peer sent or presented. The connection
    /// is aborted and must be discarded.
    Protocol,
    /// The request cannot be served as configured or as written: roots are
    /// missing, a name cannot be read, a scheme is not supported. This is
    /// known before anything is opened.
    Configuration,
    /// The request is well formed and a policy refuses it: plaintext is asked
    /// for where only `https` is allowed.
    Policy,
}

} // verus!
