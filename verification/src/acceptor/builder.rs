//! A builder that asks for the parts of an acceptor in turn.

use crate::acceptor::TlsAcceptor;
use vstd::prelude::*;

verus! {

/// A builder for a [`TlsAcceptor`]. Its state says what it asks for next.
pub struct AcceptorBuilder<State>(State);

/// The builder has nothing yet and asks for the server configuration.
pub struct WantsTlsConfig(());

/// The builder has the configuration and asks for the inbound source.
pub struct WantsIncoming<C> {
    config: C,
}

impl AcceptorBuilder<WantsTlsConfig> {
    /// A builder that has nothing yet.
    pub fn new() -> Self {
        AcceptorBuilder(WantsTlsConfig(()))
    }

    /// Takes the server configuration that every connection shares.
    pub fn with_tls_config<C>(self, config: C) -> (r: AcceptorBuilder<WantsIncoming<C>>)
        ensures
            r.config() == config,
    {
        AcceptorBuilder(WantsIncoming { config })
    }
}

impl<C> AcceptorBuilder<WantsIncoming<C>> {
    /// The server configuration.
    pub closed spec fn config(&self) -> C {
        self.0.config
    }

    /// Builds the acceptor over the inbound source `incoming`.
    pub fn with_incoming<I>(self, incoming: I) -> (r: TlsAcceptor<C, I>)
        ensures
            r.is_listening(),
            r.config() == self.config(),
            r.incoming() == incoming,
    {
        TlsAcceptor::new(self.0.config, incoming)
    }
}

} // verus!
