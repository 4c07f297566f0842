//! One connection that may still be in its TLS handshake, presented as a byte
//! stream.
//!
//! The adapter performs no I/O and no cryptography. It decides. A caller that
//! wants to read, write, flush or shut down asks [`TlsStream::begin`] for the
//! first [`Step`]. While the step is [`Step::Continue`], the caller performs
//! the action that the call waits for and reports what came of it to
//! [`TlsStream::advance`]. A [`Step::Return`] ends the call with its result.

use crate::error::ErrorKind;
use crate::progress::Progress;
use vstd::prelude::*;

verus! {

/// Whether the handshake of a connection is still going on.
#[derive(Debug, Clone, Copy, PartialEq, Eq, Structural)]
pub enum HandshakeState {
    /// The handshake has not finished. No plaintext can flow yet.
    Handshaking,
    /// The handshake has finished. The state never goes back.
    Established,
}

/// An operation of the byte stream.
#[derive(Debug, Clone, Copy, PartialEq, Eq, Structural)]
pub enum Op {
    /// Read plaintext into a buffer with room for this many bytes.
    Read(usize),
    /// Write plaintext from a buffer of this many bytes.
    Write(usize),
    /// Push everything written so far to the connection.
    Flush,
    /// Close the connection for writing.
    Shutdown,
}

/// What the adapter asks its caller to do.
#[derive(Debug, Clone, Copy, PartialEq, Eq, Structural)]
pub enum Action {
    /// Drive the handshake as far as the connection allows.
    Handshake,
    /// Copy decrypted bytes from the session into the reader's buffer.
    ReadPlaintext,
    /// Read ciphertext from the connection into the session.
    ReadCiphertext,
    /// Hand the writer's bytes to the session.
    WritePlaintext,
    /// Write ciphertext that the session holds to the connection.
    WriteCiphertext,
    /// Flush the connection.
    Flush,
    /// Shut the connection down.
    Shutdown,
}

/// A failure of an action.
#[derive(Debug, PartialEq, Eq)]
pub enum Failure<E, P> {
    /// The connection failed.
    Transport(E),
    /// The TLS engine refused what the peer sent or presented.
    Protocol(P),
}

/// What came of an action.
#[derive(Debug, PartialEq, Eq)]
pub enum Event<S, E, P> {
    /// The handshake went on: it finished and left an established stream, it
    /// waits for the connection, or it failed.
    Handshake(Progress<S, Failure<E, P>>),
    /// The session gave this many decrypted bytes, none if it holds none.
    Plaintext(usize),
    /// The connection gave this many bytes of ciphertext, none at its end, and
    /// the session processed them.
    CiphertextIn(Progress<usize, Failure<E, P>>),
    /// The session took this many of the writer's bytes.
    Accepted(usize),
    /// The connection took this many bytes of ciphertext.
    CiphertextOut(Progress<usize, E>),
    /// The connection was flushed or shut down.
    Closed(Progress<(), E>),
}

/// The error of a stream operation. Each one is final: the stream is to be
/// discarded, and the adapter does not try the failed action again.
#[derive(Debug, PartialEq, Eq)]
pub enum StreamError<E, P> {
    /// The connection failed. Its error is passed on as it came.
    Transport(E),
    /// The TLS engine reported a protocol error, which aborts the connection.
    ConnectionAborted(P),
}

impl<E, P> StreamError<E, P> {
    /// The group of this error.
    pub open spec fn kind_spec(self) -> ErrorKind {
        match self {
            StreamError::Transport(_) => ErrorKind::Transport,
            StreamError::ConnectionAborted(_) => ErrorKind::Protocol,
        }
    }

    /// The group of this error.
    pub fn kind(&self) -> (r: ErrorKind)
        ensures
            r == self.kind_spec(),
    {
        match self {
            StreamError::Transport(_) => ErrorKind::Transport,
            StreamError::ConnectionAborted(_) => ErrorKind::Protocol,
        }
    }
}

/// A stream operation in progress.
#[derive(Debug, Clone, Copy, PartialEq, Eq, Structural)]
pub struct Call {
    /// The operation that was asked for.
    pub op: Op,
    /// The action whose outcome the call waits for.
    pub awaiting: Action,
    /// For a write: how many bytes the session has taken so far.
    pub written: usize,
}

/// The next thing to happen in a stream operation.
#[derive(Debug, PartialEq, Eq)]
pub enum Step<E, P> {
    /// The caller performs `awaiting` of this call and reports the outcome.
    Continue(Call),
    /// The operation is over. A read or write finishes with the number of
    /// bytes moved, a flush or shutdown with 0.
    Return(Progress<usize, StreamError<E, P>>),
}

/// The error that a failure surfaces as: a transport error as it came, a
/// protocol error as an aborted connection.
pub open spec fn surfaced<E, P>(failure: Failure<E, P>) -> StreamError<E, P> {
    match failure {
        Failure::Transport(e) => StreamError::Transport(e),
        Failure::Protocol(p) => StreamError::ConnectionAborted(p),
    }
}

/// A call that waits for `awaiting`.
pub open spec fn waiting<E, P>(op: Op, awaiting: Action, written: usize) -> Step<E, P> {
    Step::Continue(Call { op, awaiting, written })
}

/// How many bytes count as moved when `n` are reported for a buffer of `len`.
pub open spec fn taken(len: usize, n: usize) -> usize {
    if n <= len {
        n
    } else {
        len
    }
}

/// The action that ends a flush or a shutdown.
pub open spec fn closing_action(op: Op) -> Action {
    match op {
        Op::Shutdown => Action::Shutdown,
        _ => Action::Flush,
    }
}

/// The first step of an operation on an established stream.
///
/// A read goes to the session's plaintext first. A write hands its bytes to
/// the session. A flush or shutdown first writes out the ciphertext that the
/// session holds, if any. A read into no room and a write of no bytes can
/// move nothing: they are not ready.
pub open spec fn enter<E, P>(op: Op, wants_write: bool) -> Step<E, P> {
    match op {
        Op::Read(capacity) => if capacity == 0 {
            Step::Return(Progress::Pending)
        } else {
            waiting(op, Action::ReadPlaintext, 0)
        },
        Op::Write(len) => if len == 0 {
            Step::Return(Progress::Pending)
        } else {
            waiting(op, Action::WritePlaintext, 0)
        },
        Op::Flush | Op::Shutdown => if wants_write {
            waiting(op, Action::WriteCiphertext, 0)
        } else {
            waiting(op, closing_action(op), 0)
        },
    }
}

/// The first step of an operation.
///
/// During the handshake a read or a write drives the handshake, and there is
/// nothing to flush or to shut down.
pub open spec fn first_step<E, P>(state: HandshakeState, op: Op, wants_write: bool) -> Step<E, P> {
    match state {
        HandshakeState::Established => enter(op, wants_write),
        HandshakeState::Handshaking => match op {
            Op::Read(_) | Op::Write(_) => waiting(op, Action::Handshake, 0),
            Op::Flush | Op::Shutdown => Step::Return(Progress::Done(0)),
        },
    }
}

/// The step of a read into a buffer with room for `capacity` bytes.
///
/// Plaintext that the session holds ends the read. If it holds none,
/// ciphertext is read from the connection, and the session is asked again.
/// A connection that is at its end ends the stream: the read finishes with 0.
pub open spec fn read_step<S, E, P>(op: Op, capacity: usize, awaiting: Action, event: Event<S, E, P>) -> Step<
    E,
    P,
> {
    match (awaiting, event) {
        (Action::ReadPlaintext, Event::Plaintext(n)) => if taken(capacity, n) > 0 {
            Step::Return(Progress::Done(taken(capacity, n)))
        } else {
            waiting(op, Action::ReadCiphertext, 0)
        },
        (Action::ReadCiphertext, Event::CiphertextIn(outcome)) => match outcome {
            Progress::Failed(failure) => Step::Return(Progress::Failed(surfaced(failure))),
            Progress::Pending => Step::Return(Progress::Pending),
            Progress::Done(n) => if n == 0 {
                Step::Return(Progress::Done(0))
            } else {
                waiting(op, Action::ReadPlaintext, 0)
            },
        },
        _ => Step::Return(Progress::Pending),
    }
}

/// The result of a write that can go no further for now: what the session
/// took if it took anything, else not ready.
pub open spec fn partial_write<E, P>(written: usize) -> Step<E, P> {
    if written > 0 {
        Step::Return(Progress::Done(written))
    } else {
        Step::Return(Progress::Pending)
    }
}

/// The step of a write from a buffer of `len` bytes, of which the session
/// has taken `written`.
///
/// The bytes go to the session, and the ciphertext that it then holds goes to
/// the connection. When the connection takes no more, the write finishes with
/// what the session took. A session that took nothing is offered the bytes
/// again once its ciphertext is out. A write ends as not ready only while the
/// session has taken nothing, so that no byte is handed over twice.
pub open spec fn write_step<S, E, P>(
    op: Op,
    len: usize,
    written: usize,
    awaiting: Action,
    event: Event<S, E, P>,
    wants_write: bool,
) -> Step<E, P> {
    let had = taken(len, written);
    match (awaiting, event) {
        (Action::WritePlaintext, Event::Accepted(n)) => {
            let total = (had + taken((len - had) as usize, n)) as usize;
            if wants_write {
                waiting(op, Action::WriteCiphertext, total)
            } else {
                partial_write(total)
            }
        },
        (Action::WriteCiphertext, Event::CiphertextOut(outcome)) => match outcome {
            Progress::Failed(e) => Step::Return(Progress::Failed(StreamError::Transport(e))),
            Progress::Pending => partial_write(had),
            Progress::Done(n) => if n == 0 {
                partial_write(had)
            } else if wants_write {
                waiting(op, Action::WriteCiphertext, had)
            } else if had > 0 {
                Step::Return(Progress::Done(had))
            } else {
                waiting(op, Action::WritePlaintext, 0)
            },
        },
        _ => partial_write(had),
    }
}

/// The step of a flush or a shutdown.
///
/// The ciphertext that the session holds goes out first, so that nothing is
/// dropped. Then the connection itself is flushed or shut down, and its
/// outcome is the outcome of the operation.
pub open spec fn close_step<S, E, P>(
    op: Op,
    awaiting: Action,
    event: Event<S, E, P>,
    wants_write: bool,
) -> Step<E, P> {
    match (awaiting, event) {
        (Action::WriteCiphertext, Event::CiphertextOut(outcome)) => match outcome {
            Progress::Failed(e) => Step::Return(Progress::Failed(StreamError::Transport(e))),
            Progress::Pending => Step::Return(Progress::Pending),
            Progress::Done(n) => if n == 0 {
                Step::Return(Progress::Pending)
            } else if wants_write {
                waiting(op, Action::WriteCiphertext, 0)
            } else {
                waiting(op, closing_action(op), 0)
            },
        },
        (Action::Flush, Event::Closed(outcome)) | (Action::Shutdown, Event::Closed(outcome)) => {
            if awaiting == closing_action(op) {
                match outcome {
                    Progress::Done(_) => Step::Return(Progress::Done(0)),
                    Progress::Pending => Step::Return(Progress::Pending),
                    Progress::Failed(e) => Step::Return(
                        Progress::Failed(StreamError::Transport(e)),
                    ),
                }
            } else {
                Step::Return(Progress::Pending)
            }
        },
        _ => Step::Return(Progress::Pending),
    }
}

/// The step of an established stream after `event` answered `call`.
///
/// An event that does not answer what the call waits for, or an action that
/// is none of the operation, ends the call as not ready, so that it is begun
/// again.
pub open spec fn established_step<S, E, P>(
    call: Call,
    event: Event<S, E, P>,
    wants_write: bool,
) -> Step<E, P> {
    match call.op {
        Op::Read(capacity) => read_step(call.op, capacity, call.awaiting, event),
        Op::Write(len) => write_step(call.op, len, call.written, call.awaiting, event, wants_write),
        Op::Flush | Op::Shutdown => close_step(call.op, call.awaiting, event, wants_write),
    }
}

/// Whether `event` completes the handshake that `call` drives.
pub open spec fn completes_handshake<S, E, P>(
    state: HandshakeState,
    call: Call,
    event: Event<S, E, P>,
) -> bool {
    &&& state == HandshakeState::Handshaking
    &&& call.awaiting == Action::Handshake
    &&& event matches Event::Handshake(Progress::Done(_))
}

/// The state after `event` answered `call`. Only a handshake that finishes
/// changes the state, and only from `Handshaking`.
pub open spec fn next_state<S, E, P>(
    state: HandshakeState,
    call: Call,
    event: Event<S, E, P>,
) -> HandshakeState {
    if completes_handshake(state, call, event) {
        HandshakeState::Established
    } else {
        state
    }
}

/// The step after `event` answered `call`.
///
/// During the handshake only the outcome of the handshake counts. Once it has
/// finished, the operation is entered at once, in the same call. If it waits
/// for the connection, so does the call. If it failed, the call fails.
pub open spec fn next_step<S, E, P>(
    state: HandshakeState,
    call: Call,
    event: Event<S, E, P>,
    wants_write: bool,
) -> Step<E, P> {
    match state {
        HandshakeState::Established => established_step(call, event, wants_write),
        HandshakeState::Handshaking => match (call.awaiting, event) {
            (Action::Handshake, Event::Handshake(outcome)) => match outcome {
                Progress::Done(_) => enter(call.op, wants_write),
                Progress::Pending => Step::Return(Progress::Pending),
                Progress::Failed(failure) => Step::Return(Progress::Failed(surfaced(failure))),
            },
            _ => Step::Return(Progress::Pending),
        },
    }
}

/// What an adapter holds: the handshake in progress, or what it left.
enum State<H, S> {
    Handshaking(H),
    Streaming(S),
}

/// One connection, first in its handshake and then established.
///
/// `H` is the handshake in progress and `S` the established stream that it
/// leaves. The adapter owns whichever of the two exists.
pub struct TlsStream<H, S> {
    state: State<H, S>,
}

impl<H, S> TlsStream<H, S> {
    /// Whether the handshake has finished.
    pub closed spec fn handshake_state(&self) -> HandshakeState {
        match self.state {
            State::Handshaking(_) => HandshakeState::Handshaking,
            State::Streaming(_) => HandshakeState::Established,
        }
    }

    /// The handshake in progress, while there is one.
    pub closed spec fn handshake(&self) -> H
        recommends
            self.handshake_state() == HandshakeState::Handshaking,
    {
        self.state->Handshaking_0
    }

    /// The established stream, once there is one.
    pub closed spec fn stream(&self) -> S
        recommends
            self.handshake_state() == HandshakeState::Established,
    {
        self.state->Streaming_0
    }

    /// How often this connection went from `Handshaking` to `Established`.
    pub open spec fn completed_handshakes(&self) -> nat {
        match self.handshake_state() {
            HandshakeState::Handshaking => 0,
            HandshakeState::Established => 1,
        }
    }

    /// An adapter that starts with `handshake` still to be driven. Nothing is
    /// sent or read until the first read or write.
    pub fn new(handshake: H) -> (r: Self)
        ensures
            r.handshake_state() == HandshakeState::Handshaking,
            r.handshake() == handshake,
    {
        TlsStream { state: State::Handshaking(handshake) }
    }

    /// Whether the handshake has finished.
    pub fn state(&self) -> (r: HandshakeState)
        ensures
            r == self.handshake_state(),
    {
        match &self.state {
            State::Handshaking(_) => HandshakeState::Handshaking,
            State::Streaming(_) => HandshakeState::Established,
        }
    }

    /// How often the handshake of this connection has finished: at most once.
    pub fn handshake_count(&self) -> (r: usize)
        ensures
            r == self.completed_handshakes(),
            r <= 1,
    {
        match &self.state {
            State::Handshaking(_) => 0,
            State::Streaming(_) => 1,
        }
    }

    /// The handshake in progress. `None` once established.
    pub fn handshake_ref(&self) -> (r: Option<&H>)
        ensures
            r == (match self.handshake_state() {
                HandshakeState::Handshaking => Some(&self.handshake()),
                HandshakeState::Established => None,
            }),
    {
        match &self.state {
            State::Handshaking(handshake) => Some(handshake),
            State::Streaming(_) => None,
        }
    }

    /// The established stream. `None` during the handshake.
    pub fn stream_ref(&self) -> (r: Option<&S>)
        ensures
            r == (match self.handshake_state() {
                HandshakeState::Handshaking => None,
                HandshakeState::Established => Some(&self.stream()),
            }),
    {
        match &self.state {
            State::Handshaking(_) => None,
            State::Streaming(stream) => Some(stream),
        }
    }

    /// The handshake in progress, for the caller to drive. `None` once established.
    pub fn handshake_mut(&mut self) -> (r: Option<&mut H>)
        ensures
            old(self).handshake_state() == HandshakeState::Established ==> r is None && *final(self)
                == *old(self),
            old(self).handshake_state() == HandshakeState::Handshaking ==> r is Some && *r->0
                == old(self).handshake() && final(self).handshake_state()
                == HandshakeState::Handshaking && final(self).handshake() == *final(r->0),
    {
        match &mut self.state {
            State::Handshaking(handshake) => Some(handshake),
            State::Streaming(_) => None,
        }
    }

    /// The established stream, for the caller to act on. `None` during the handshake.
    pub fn stream_mut(&mut self) -> (r: Option<&mut S>)
        ensures
            old(self).handshake_state() == HandshakeState::Handshaking ==> r is None && *final(self)
                == *old(self),
            old(self).handshake_state() == HandshakeState::Established ==> r is Some && *r->0
                == old(self).stream() && final(self).handshake_state()
                == HandshakeState::Established && final(self).stream() == *final(r->0),
    {
        match &mut self.state {
            State::Handshaking(_) => None,
            State::Streaming(stream) => Some(stream),
        }
    }

    /// Begins `op`. `wants_write` says whether the session holds ciphertext
    /// to send; it is not looked at during the handshake.
    pub fn begin<E, P>(&self, op: Op, wants_write: bool) -> (r: Step<E, P>)
        ensures
            r == first_step::<E, P>(self.handshake_state(), op, wants_write),
    {
        match &self.state {
            State::Streaming(_) => enter_established(op, wants_write),
            State::Handshaking(_) => match op {
                Op::Read(_) | Op::Write(_) => Step::Continue(
                    Call { op, awaiting: Action::Handshake, written: 0 },
                ),
                Op::Flush | Op::Shutdown => Step::Return(Progress::Done(0)),
            },
        }
    }

    /// Takes the outcome of the action that `call` waited for and gives the
    /// next step. `wants_write` says whether the session holds ciphertext to
    /// send after the action.
    ///
    /// A handshake that finishes leaves its stream in the adapter, which is
    /// established from then on. Nothing else changes the adapter.
    pub fn advance<E, P>(&mut self, call: Call, event: Event<S, E, P>, wants_write: bool) -> (r:
        Step<E, P>)
        ensures
            r == next_step(old(self).handshake_state(), call, event, wants_write),
            final(self).handshake_state() == next_state(old(self).handshake_state(), call, event),
            completes_handshake(old(self).handshake_state(), call, event) ==> final(self).stream()
                == event->Handshake_0->Done_0,
            !completes_handshake(old(self).handshake_state(), call, event) ==> *final(self) == *old(
                self,
            ),
    {
        match &self.state {
            State::Streaming(_) => step_established(call, event, wants_write),
            State::Handshaking(_) => match call.awaiting {
                Action::Handshake => match event {
                    Event::Handshake(Progress::Done(stream)) => {
                        self.state = State::Streaming(stream);
                        enter_established(call.op, wants_write)
                    },
                    Event::Handshake(Progress::Pending) => Step::Return(Progress::Pending),
                    Event::Handshake(Progress::Failed(failure)) => Step::Return(
                        Progress::Failed(surface(failure)),
                    ),
                    _ => Step::Return(Progress::Pending),
                },
                _ => Step::Return(Progress::Pending),
            },
        }
    }
}

/// Turns a failure of an action into the error of the operation: a transport
/// error as it came, a protocol error as an aborted connection.
pub fn surface<E, P>(failure: Failure<E, P>) -> (r: StreamError<E, P>)
    ensures
        r == surfaced(failure),
{
    match failure {
        Failure::Transport(e) => StreamError::Transport(e),
        Failure::Protocol(p) => StreamError::ConnectionAborted(p),
    }
}

fn enter_established<E, P>(op: Op, wants_write: bool) -> (r: Step<E, P>)
    ensures
        r == enter::<E, P>(op, wants_write),
{
    let awaiting = match op {
        Op::Read(capacity) => {
            if capacity == 0 {
                return Step::Return(Progress::Pending);
            }
            Action::ReadPlaintext
        },
        Op::Write(len) => {
            if len == 0 {
                return Step::Return(Progress::Pending);
            }
            Action::WritePlaintext
        },
        Op::Flush => if wants_write {
            Action::WriteCiphertext
        } else {
            Action::Flush
        },
        Op::Shutdown => if wants_write {
            Action::WriteCiphertext
        } else {
            Action::Shutdown
        },
    };
    Step::Continue(Call { op, awaiting, written: 0 })
}

fn clamp(len: usize, n: usize) -> (r: usize)
    ensures
        r == taken(len, n),
{
    if n <= len {
        n
    } else {
        len
    }
}

fn step_read<S, E, P>(op: Op, capacity: usize, awaiting: Action, event: Event<S, E, P>) -> (r: Step<
    E,
    P,
>)
    ensures
        r == read_step(op, capacity, awaiting, event),
{
    match (awaiting, event) {
        (Action::ReadPlaintext, Event::Plaintext(n)) => {
            let read = clamp(capacity, n);
            if read > 0 {
                Step::Return(Progress::Done(read))
            } else {
                Step::Continue(Call { op, awaiting: Action::ReadCiphertext, written: 0 })
            }
        },
        (Action::ReadCiphertext, Event::CiphertextIn(Progress::Failed(failure))) => Step::Return(
            Progress::Failed(surface(failure)),
        ),
        (Action::ReadCiphertext, Event::CiphertextIn(Progress::Pending)) => Step::Return(
            Progress::Pending,
        ),
        (Action::ReadCiphertext, Event::CiphertextIn(Progress::Done(n))) => {
            if n == 0 {
                Step::Return(Progress::Done(0))
            } else {
                Step::Continue(Call { op, awaiting: Action::ReadPlaintext, written: 0 })
            }
        },
        _ => Step::Return(Progress::Pending),
    }
}

fn stalled_write<E, P>(written: usize) -> (r: Step<E, P>)
    ensures
        r == partial_write::<E, P>(written),
{
    if written > 0 {
        Step::Return(Progress::Done(written))
    } else {
        Step::Return(Progress::Pending)
    }
}

fn step_write<S, E, P>(
    op: Op,
    len: usize,
    written: usize,
    awaiting: Action,
    event: Event<S, E, P>,
    wants_write: bool,
) -> (r: Step<E, P>)
    ensures
        r == write_step(op, len, written, awaiting, event, wants_write),
{
    let had = clamp(len, written);
    match (awaiting, event) {
        (Action::WritePlaintext, Event::Accepted(n)) => {
            let total = had + clamp(len - had, n);
            if wants_write {
                Step::Continue(Call { op, awaiting: Action::WriteCiphertext, written: total })
            } else {
                stalled_write(total)
            }
        },
        (Action::WriteCiphertext, Event::CiphertextOut(Progress::Failed(e))) => Step::Return(
            Progress::Failed(StreamError::Transport(e)),
        ),
        (Action::WriteCiphertext, Event::CiphertextOut(Progress::Pending)) => stalled_write(had),
        (Action::WriteCiphertext, Event::CiphertextOut(Progress::Done(n))) => {
            if n == 0 {
                stalled_write(had)
            } else if wants_write {
                Step::Continue(Call { op, awaiting: Action::WriteCiphertext, written: had })
            } else if had > 0 {
                Step::Return(Progress::Done(had))
            } else {
                Step::Continue(Call { op, awaiting: Action::WritePlaintext, written: 0 })
            }
        },
        _ => stalled_write(had),
    }
}

fn closing(op: Op) -> (r: Action)
    ensures
        r == closing_action(op),
{
    match op {
        Op::Shutdown => Action::Shutdown,
        _ => Action::Flush,
    }
}

fn step_close<S, E, P>(op: Op, awaiting: Action, event: Event<S, E, P>, wants_write: bool) -> (r:
    Step<E, P>)
    ensures
        r == close_step(op, awaiting, event, wants_write),
{
    match (awaiting, event) {
        (Action::WriteCiphertext, Event::CiphertextOut(Progress::Failed(e))) => Step::Return(
            Progress::Failed(StreamError::Transport(e)),
        ),
        (Action::WriteCiphertext, Event::CiphertextOut(Progress::Pending)) => Step::Return(
            Progress::Pending,
        ),
        (Action::WriteCiphertext, Event::CiphertextOut(Progress::Done(n))) => {
            if n == 0 {
                Step::Return(Progress::Pending)
            } else if wants_write {
                Step::Continue(Call { op, awaiting: Action::WriteCiphertext, written: 0 })
            } else {
                Step::Continue(Call { op, awaiting: closing(op), written: 0 })
            }
        },
        (Action::Flush, Event::Closed(outcome)) | (Action::Shutdown, Event::Closed(outcome)) => {
            if awaiting == closing(op) {
                match outcome {
                    Progress::Done(_) => Step::Return(Progress::Done(0)),
                    Progress::Pending => Step::Return(Progress::Pending),
                    Progress::Failed(e) => Step::Return(
                        Progress::Failed(StreamError::Transport(e)),
                    ),
                }
            } else {
                Step::Return(Progress::Pending)
            }
        },
        _ => Step::Return(Progress::Pending),
    }
}

fn step_established<S, E, P>(call: Call, event: Event<S, E, P>, wants_write: bool) -> (r: Step<E, P>)
    ensures
        r == established_step(call, event, wants_write),
{
    match call.op {
        Op::Read(capacity) => step_read(call.op, capacity, call.awaiting, event),
        Op::Write(len) => step_write(call.op, len, call.written, call.awaiting, event, wants_write),
        Op::Flush | Op::Shutdown => step_close(call.op, call.awaiting, event, wants_write),
    }
}

/// Whether `step` asks the caller to perform `action`.
pub open spec fn asks_for<E, P>(step: Step<E, P>, action: Action) -> bool {
    match step {
        Step::Continue(call) => call.awaiting == action,
        Step::Return(_) => false,
    }
}

/// The error that an event carries, as it surfaces.
pub open spec fn failure_of<S, E, P>(event: Event<S, E, P>) -> Option<StreamError<E, P>> {
    match event {
        Event::Handshake(Progress::Failed(failure)) => Some(surfaced(failure)),
        Event::CiphertextIn(Progress::Failed(failure)) => Some(surfaced(failure)),
        Event::CiphertextOut(Progress::Failed(e)) => Some(StreamError::Transport(e)),
        Event::Closed(Progress::Failed(e)) => Some(StreamError::Transport(e)),
        _ => None,
    }
}

/// Whether an event says that the connection is not ready.
pub open spec fn suspends<S, E, P>(event: Event<S, E, P>) -> bool {
    match event {
        Event::Handshake(outcome) => outcome is Pending,
        Event::CiphertextIn(outcome) => outcome is Pending,
        Event::CiphertextOut(outcome) => outcome is Pending,
        Event::Closed(outcome) => outcome is Pending,
        _ => false,
    }
}

/// The state after a run of events, each with the call that it answered.
pub open spec fn state_after<S, E, P>(
    state: HandshakeState,
    run: Seq<(Call, Event<S, E, P>)>,
) -> HandshakeState
    decreases run.len(),
{
    if run.len() == 0 {
        state
    } else {
        next_state(state_after(state, run.drop_last()), run.last().0, run.last().1)
    }
}

/// How often a run of events took the state from `Handshaking` to
/// `Established`.
pub open spec fn completions<S, E, P>(state: HandshakeState, run: Seq<(Call, Event<S, E, P>)>) -> nat
    decreases run.len(),
{
    if run.len() == 0 {
        0
    } else {
        let before = state_after(state, run.drop_last());
        let now: nat = if completes_handshake(before, run.last().0, run.last().1) {
            1
        } else {
            0
        };
        completions(state, run.drop_last()) + now
    }
}

/// The handshake completes at most once. Whatever is read or written, and
/// however often, a stream that is established stays established, and a run
/// of events holds exactly one completion if it took a stream from its
/// handshake to established, and none otherwise.
pub proof fn handshake_completes_once<S, E, P>(
    state: HandshakeState,
    run: Seq<(Call, Event<S, E, P>)>,
)
    ensures
        state == HandshakeState::Established ==> state_after(state, run)
            == HandshakeState::Established,
        completions(state, run) == (if state == HandshakeState::Handshaking && state_after(
            state,
            run,
        ) == HandshakeState::Established {
            1nat
        } else {
            0nat
        }),
    decreases run.len(),
{
    if run.len() > 0 {
        handshake_completes_once(state, run.drop_last());
    }
}

/// Once the handshake has finished, it is never driven again: no operation
/// on an established stream begins with it or comes back to it, and the step
/// that follows the completion is already a step of the operation itself.
pub proof fn established_never_handshakes<S, E, P>(
    state: HandshakeState,
    op: Op,
    call: Call,
    event: Event<S, E, P>,
    wants_write: bool,
)
    ensures
        !asks_for(first_step::<E, P>(HandshakeState::Established, op, wants_write), Action::Handshake),
        next_state(state, call, event) == HandshakeState::Established ==> !asks_for(
            next_step(state, call, event, wants_write),
            Action::Handshake,
        ),
{
}

/// A read or a write that finishes with no byte moved marks the end of the
/// stream: it is a read, on an established stream, to which the connection
/// answered that it has no more to give. In every other case where nothing
/// can be moved the operation is not ready, or fails.
pub proof fn nothing_moved_only_at_end_of_stream<S, E, P>(
    state: HandshakeState,
    call: Call,
    event: Event<S, E, P>,
    wants_write: bool,
)
    requires
        call.op is Read || call.op is Write,
        next_step(state, call, event, wants_write) == Step::<E, P>::Return(Progress::Done(0)),
    ensures
        state == HandshakeState::Established,
        call.op is Read,
        call.awaiting == Action::ReadCiphertext,
        event == Event::<S, E, P>::CiphertextIn(Progress::Done(0)),
{
}

/// No read or write begins by finishing: the first step of either moves no
/// byte and reports none.
pub proof fn nothing_moved_at_first<E, P>(state: HandshakeState, op: Op, wants_write: bool)
    requires
        op is Read || op is Write,
    ensures
        !(first_step::<E, P>(state, op, wants_write) matches Step::Return(Progress::Done(_))),
{
}

/// An operation never reports more bytes than its buffer holds: a read at
/// most the room it has, a write at most the bytes it offers and at least
/// one, a flush or shutdown none.
pub proof fn moves_within_the_buffer<S, E, P>(
    state: HandshakeState,
    call: Call,
    event: Event<S, E, P>,
    wants_write: bool,
    n: usize,
)
    requires
        next_step(state, call, event, wants_write) == Step::<E, P>::Return(Progress::Done(n)),
    ensures
        match call.op {
            Op::Read(capacity) => n <= capacity,
            Op::Write(len) => 0 < n <= len,
            Op::Flush | Op::Shutdown => n == 0,
        },
{
}

/// An error ends the operation at once and is the error of the action that
/// just failed: a transport error unchanged, a protocol error as an aborted
/// connection. The adapter answers a failure with no further action.
pub proof fn failures_are_final<S, E, P>(
    state: HandshakeState,
    call: Call,
    event: Event<S, E, P>,
    wants_write: bool,
)
    ensures
        failure_of(event) is Some ==> next_step(state, call, event, wants_write) is Return,
        next_step(state, call, event, wants_write) matches Step::Return(Progress::Failed(error))
            ==> failure_of(event) == Some(error),
{
}

/// A connection that is not ready suspends the operation: the call returns,
/// without an error and without a further action. Only a write that the
/// session has taken bytes of returns those instead of suspending.
pub proof fn suspension_is_passed_on<S, E, P>(
    state: HandshakeState,
    call: Call,
    event: Event<S, E, P>,
    wants_write: bool,
)
    requires
        suspends(event),
    ensures
        next_step(state, call, event, wants_write) matches Step::Return(result) && (result
            is Pending || (call.op is Write && result is Done)),
{
}

/// How many bytes an event reports as moved. A handshake that finishes
/// counts as one.
pub open spec fn progress_of<S, E, P>(event: Event<S, E, P>) -> nat {
    match event {
        Event::Handshake(Progress::Done(_)) => 1,
        Event::Plaintext(n) => n as nat,
        Event::CiphertextIn(Progress::Done(n)) => n as nat,
        Event::Accepted(n) => n as nat,
        Event::CiphertextOut(Progress::Done(n)) => n as nat,
        _ => 0,
    }
}

/// An operation never idles: of two actions in a row, at least one has moved
/// a byte. So an operation takes no more than two steps for each byte that
/// moves, and ends when nothing can move.
pub proof fn never_idles_twice<S, E, P>(
    state: HandshakeState,
    call: Call,
    first: Event<S, E, P>,
    second: Event<S, E, P>,
    wants_write: bool,
    wants_write_then: bool,
)
    requires
        progress_of(first) == 0,
        progress_of(second) == 0,
    ensures
        next_step(state, call, first, wants_write) matches Step::Continue(then) ==> next_step(
            next_state(state, call, first),
            then,
            second,
            wants_write_then,
        ) is Return,
{
}

/// A write that suspends has handed nothing to the session, and a read that
/// suspends has taken nothing from it: the operation can be tried again from
/// its start, and no byte is then handed over or delivered twice.
pub proof fn suspension_repeats_nothing<S, E, P>(
    state: HandshakeState,
    call: Call,
    event: Event<S, E, P>,
    wants_write: bool,
)
    requires
        state == HandshakeState::Established,
        next_step(state, call, event, wants_write) == Step::<E, P>::Return(Progress::Pending),
    ensures
        match call.op {
            Op::Write(len) => taken(len, call.written) == 0 && !(call.awaiting
                == Action::WritePlaintext && event is Accepted && taken(len, event->Accepted_0)
                > 0),
            Op::Read(capacity) => !(call.awaiting == Action::ReadPlaintext && event is Plaintext
                && taken(capacity, event->Plaintext_0) > 0),
            Op::Flush | Op::Shutdown => true,
        },
{
}

} // verus!
