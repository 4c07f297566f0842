//! The server side: every inbound connection becomes a protected stream at
//! once, with its handshake still to come.

use crate::progress::Progress;
use crate::stream::MaybeHttpsStream;
use crate::tls_stream::{HandshakeState, TlsStream};
use vstd::prelude::*;

pub mod builder;

verus! {

/// What an acceptor does when it is asked for the next stream.
#[derive(Debug, Clone, Copy, PartialEq, Eq, Structural)]
pub enum AcceptStep {
    /// The caller pulls the next connection from the inbound source and
    /// reports what came.
    Pull,
    /// The acceptor has ended: there is no next stream.
    End,
}

/// Whether an acceptor goes on after the inbound source gave `inbound`: it
/// does while connections come or are waited for, and stops for good when
/// the source ends or fails.
pub open spec fn listens_on<T, E>(listening: bool, inbound: Progress<Option<T>, E>) -> bool {
    listening && match inbound {
        Progress::Pending => true,
        Progress::Done(Some(_)) => true,
        Progress::Done(None) => false,
        Progress::Failed(_) => false,
    }
}

/// Whether `yielded` is what an acceptor with `config` yields when the
/// inbound source gave `inbound`.
///
/// A connection is wrapped at once: the stream is protected and still in its
/// handshake, which starts from the connection and a clone of the
/// configuration. The end of the source and its failure are passed on. An
/// acceptor that has ended yields the end.
pub open spec fn yields<C: Clone, T, H: From<(T, C)>, S, E>(
    listening: bool,
    config: C,
    inbound: Progress<Option<T>, E>,
    yielded: Progress<Option<MaybeHttpsStream<T, H, S>>, E>,
) -> bool {
    if !listening {
        yielded == Progress::<Option<MaybeHttpsStream<T, H, S>>, E>::Done(None)
    } else {
        match inbound {
            Progress::Pending => yielded is Pending,
            Progress::Failed(e) => yielded == Progress::<Option<MaybeHttpsStream<T, H, S>>, E>::Failed(e),
            Progress::Done(None) => yielded == Progress::<Option<MaybeHttpsStream<T, H, S>>, E>::Done(
                None,
            ),
            Progress::Done(Some(connection)) => match yielded {
                Progress::Done(Some(MaybeHttpsStream::Https(stream))) => stream.handshake_state()
                    == HandshakeState::Handshaking && exists|shared: C| #[trigger]
                    cloned(config, shared) && call_ensures(
                        H::from,
                        ((connection, shared),),
                        stream.handshake(),
                    ),
                _ => false,
            },
        }
    }
}

/// A TLS acceptor over a source of inbound connections.
///
/// `C` is the shared server configuration and `I` the inbound source. The
/// acceptor wraps each connection without waiting for its handshake, so a
/// peer that stalls holds up nobody but itself.
pub struct TlsAcceptor<C, I> {
    config: C,
    incoming: I,
    listening: bool,
}

impl<C, I> TlsAcceptor<C, I> {
    /// The shared configuration that every handshake starts from.
    pub closed spec fn config(&self) -> C {
        self.config
    }

    /// The source of inbound connections.
    pub closed spec fn incoming(&self) -> I {
        self.incoming
    }

    /// Whether the acceptor still yields streams. It stops when the inbound
    /// source ends or fails.
    pub closed spec fn is_listening(&self) -> bool {
        self.listening
    }

    /// A builder for an acceptor.
    pub fn builder() -> builder::AcceptorBuilder<builder::WantsTlsConfig> {
        builder::AcceptorBuilder::new()
    }

    /// An acceptor for the connections of `incoming`, with `config` for each.
    pub fn new(config: C, incoming: I) -> (r: Self)
        ensures
            r.is_listening(),
            r.config() == config,
            r.incoming() == incoming,
    {
        TlsAcceptor { config, incoming, listening: true }
    }

    /// The inbound source, for the caller to pull from.
    pub fn incoming_mut(&mut self) -> (r: &mut I)
        ensures
            *r == old(self).incoming(),
            final(self).incoming() == *final(r),
            final(self).config() == old(self).config(),
            final(self).is_listening() == old(self).is_listening(),
    {
        &mut self.incoming
    }

    /// Whether the inbound source is to be pulled from.
    pub fn begin(&self) -> (r: AcceptStep)
        ensures
            r == (if self.is_listening() {
                AcceptStep::Pull
            } else {
                AcceptStep::End
            }),
    {
        if self.listening {
            AcceptStep::Pull
        } else {
            AcceptStep::End
        }
    }

}

impl<C: Clone, I> TlsAcceptor<C, I> {
    /// Takes what the inbound source gave and yields the next stream.
    ///
    /// A connection is wrapped at once: the stream that is yielded is
    /// protected and still in its handshake, which starts from the connection
    /// and a clone of the configuration. The acceptor goes on listening. The
    /// end of the source and its failure are passed on, and end the acceptor.
    /// An acceptor that has ended yields nothing.
    pub fn poll_accept<T, H, S, E>(&mut self, inbound: Progress<Option<T>, E>) -> (r: Progress<
        Option<MaybeHttpsStream<T, H, S>>,
        E,
    >) where H: From<(T, C)>
        ensures
            final(self).config() == old(self).config(),
            final(self).incoming() == old(self).incoming(),
            final(self).is_listening() == listens_on(old(self).is_listening(), inbound),
            yields(old(self).is_listening(), old(self).config(), inbound, r),
    {
        if !self.listening {
            return Progress::Done(None);
        }
        match inbound {
            Progress::Pending => Progress::Pending,
            Progress::Failed(e) => {
                self.listening = false;
                Progress::Failed(e)
            },
            Progress::Done(None) => {
                self.listening = false;
                Progress::Done(None)
            },
            Progress::Done(Some(connection)) => {
                let config = self.config.clone();
                let handshake = H::from((connection, config));
                assert(cloned(self.config(), config) && call_ensures(
                    H::from,
                    ((connection, config),),
                    handshake,
                ));
                Progress::Done(Some(MaybeHttpsStream::Https(TlsStream::new(handshake))))
            },
        }
    }
}

impl<C, I> From<(C, I)> for TlsAcceptor<C, I> {
    /// An acceptor from a configuration and an inbound source, as [`TlsAcceptor::new`] makes it.
    fn from(parts: (C, I)) -> (r: Self)
        ensures
            r.is_listening(),
            r.config() == parts.0,
            r.incoming() == parts.1,
    {
        TlsAcceptor { config: parts.0, incoming: parts.1, listening: true }
    }
}

impl<C, I> vstd::std_specs::convert::FromSpecImpl<(C, I)> for TlsAcceptor<C, I> {
    open spec fn obeys_from_spec() -> bool {
        true
    }

    closed spec fn from_spec(parts: (C, I)) -> Self {
        TlsAcceptor { config: parts.0, incoming: parts.1, listening: true }
    }
}

/// Accepting never waits for a handshake. Whatever the peers of earlier
/// connections do, a connection that has come in is yielded at once, as a
/// protected stream whose handshake has not begun, and the acceptor goes on
/// listening for the next one.
pub proof fn accepting_never_waits<C: Clone, T, H: From<(T, C)>, S, E>(
    config: C,
    connection: T,
    yielded: Progress<Option<MaybeHttpsStream<T, H, S>>, E>,
)
    requires
        yields(true, config, Progress::Done(Some(connection)), yielded),
    ensures
        yielded matches Progress::Done(Some(MaybeHttpsStream::Https(stream)))
            && stream.handshake_state() == HandshakeState::Handshaking
            && stream.completed_handshakes() == 0,
        listens_on(true, Progress::<Option<T>, E>::Done(Some(connection))),
{
}

} // verus!
