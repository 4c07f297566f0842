//! A stream that is either plain or protected with TLS, behind one interface.

use crate::progress::Progress;
use crate::tls_stream::{
    first_step, next_state, next_step, Call, Event, HandshakeState, Op, Step, StreamError,
    TlsStream,
};
use vstd::prelude::*;

verus! {

/// A stream that might be protected with TLS.
///
/// `T` is the plain connection. `H` and `S` are the handshake and the
/// established stream of a protected one. Which of the two arms a stream is,
/// is fixed when it is made.
pub enum MaybeHttpsStream<T, H, S> {
    /// A stream over plain text.
    Http(T),
    /// A stream protected with TLS.
    Https(TlsStream<H, S>),
}

/// Where an operation of a [`MaybeHttpsStream`] goes.
#[derive(Debug, PartialEq, Eq)]
pub enum Dispatch<E, P> {
    /// To the plain connection, whose outcome is the outcome of the operation.
    Forward(Op),
    /// To the TLS adapter, which gave this first step.
    Encrypted(Step<E, P>),
}

/// Where `op` goes on a stream of the given arm.
pub open spec fn dispatch<E, P>(tls: Option<HandshakeState>, op: Op, wants_write: bool) -> Dispatch<
    E,
    P,
> {
    match tls {
        None => Dispatch::Forward(op),
        Some(state) => Dispatch::Encrypted(first_step(state, op, wants_write)),
    }
}

/// The result of an operation that the plain connection performed: its
/// outcome, with an error passed on as it came.
pub open spec fn forwarded_result<E, P>(outcome: Progress<usize, E>) -> Progress<
    usize,
    StreamError<E, P>,
> {
    match outcome {
        Progress::Done(n) => Progress::Done(n),
        Progress::Pending => Progress::Pending,
        Progress::Failed(e) => Progress::Failed(StreamError::Transport(e)),
    }
}

impl<T, H, S> MaybeHttpsStream<T, H, S> {
    /// The handshake state of the protected arm, `None` for the plain arm.
    pub open spec fn tls_state(&self) -> Option<HandshakeState> {
        match *self {
            MaybeHttpsStream::Http(_) => None,
            MaybeHttpsStream::Https(tls) => Some(tls.handshake_state()),
        }
    }

    /// Whether the stream is protected with TLS.
    pub fn is_https(&self) -> (r: bool)
        ensures
            r == (*self is Https),
    {
        match self {
            MaybeHttpsStream::Http(_) => false,
            MaybeHttpsStream::Https(_) => true,
        }
    }

    /// A short text that names the arm and shows nothing of what it holds.
    pub fn describe(&self) -> (r: &'static str)
        ensures
            r@ == (if *self is Https {
                "Https(..)"@
            } else {
                "Http(..)"@
            }),
    {
        match self {
            MaybeHttpsStream::Http(_) => "Http(..)",
            MaybeHttpsStream::Https(_) => "Https(..)",
        }
    }

    /// Begins `op`: on the plain arm it goes to the connection as it is, on
    /// the protected arm to the adapter.
    pub fn begin<E, P>(&self, op: Op, wants_write: bool) -> (r: Dispatch<E, P>)
        ensures
            r == dispatch::<E, P>(self.tls_state(), op, wants_write),
    {
        match self {
            MaybeHttpsStream::Http(_) => Dispatch::Forward(op),
            MaybeHttpsStream::Https(tls) => Dispatch::Encrypted(tls.begin(op, wants_write)),
        }
    }

    /// Gives the next step of an operation on the protected arm. The plain
    /// arm has no steps: there the call ends as not ready.
    ///
    /// The arm of the stream never changes, and the plain connection is left
    /// as it is.
    pub fn advance<E, P>(&mut self, call: Call, event: Event<S, E, P>, wants_write: bool) -> (r:
        Step<E, P>)
        ensures
            (*final(self) is Https) == (*old(self) is Https),
            old(self).tls_state() matches Some(state) ==> r == next_step(
                state,
                call,
                event,
                wants_write,
            ) && final(self).tls_state() == Some(next_state(state, call, event)),
            old(self).tls_state() is None ==> r == Step::<E, P>::Return(Progress::Pending)
                && *final(self) == *old(self),
    {
        match self {
            MaybeHttpsStream::Http(_) => Step::Return(Progress::Pending),
            MaybeHttpsStream::Https(tls) => tls.advance(call, event, wants_write),
        }
    }

    /// Gives the result of an operation that the plain connection performed.
    pub fn forwarded<E, P>(outcome: Progress<usize, E>) -> (r: Progress<usize, StreamError<E, P>>)
        ensures
            r == forwarded_result::<E, P>(outcome),
    {
        match outcome {
            Progress::Done(n) => Progress::Done(n),
            Progress::Pending => Progress::Pending,
            Progress::Failed(e) => Progress::Failed(StreamError::Transport(e)),
        }
    }
}

} // verus!
