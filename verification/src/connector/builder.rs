//! A builder that asks for the parts of a connector in turn.

use crate::connector::HttpsConnector;
use crate::server_name::{
    strip_brackets_spec, DefaultServerNameResolver, FixedServerNameResolver, ServerName,
};
use vstd::prelude::*;

verus! {

/// A builder for an [`HttpsConnector`]. Its state says what it asks for next.
pub struct ConnectorBuilder<State>(State);

/// The builder has nothing yet and asks for the client configuration.
pub struct WantsTlsConfig(());

/// The builder has the configuration and asks which schemes are allowed.
pub struct WantsSchemes<C> {
    tls_config: C,
}

/// The builder has all it needs and asks for the inner transport to wrap.
pub struct WantsTransport<C, R> {
    tls_config: C,
    https_only: bool,
    server_name_resolver: R,
}

impl ConnectorBuilder<WantsTlsConfig> {
    /// A builder that has nothing yet.
    pub fn new() -> Self {
        ConnectorBuilder(WantsTlsConfig(()))
    }

    /// Takes the client configuration that every connection shares.
    pub fn with_tls_config<C>(self, config: C) -> (r: ConnectorBuilder<WantsSchemes<C>>)
        ensures
            r.tls_config() == config,
    {
        ConnectorBuilder(WantsSchemes { tls_config: config })
    }
}

impl<C> ConnectorBuilder<WantsSchemes<C>> {
    /// The client configuration.
    pub closed spec fn tls_config(&self) -> C {
        self.0.tls_config
    }

    /// Allows `https` targets only.
    pub fn https_only(self) -> (r: ConnectorBuilder<WantsTransport<C, DefaultServerNameResolver>>)
        ensures
            r.is_https_only(),
            r.tls_config() == self.tls_config(),
            r.resolver() == DefaultServerNameResolver::policy(),
    {
        ConnectorBuilder(
            WantsTransport {
                tls_config: self.0.tls_config,
                https_only: true,
                server_name_resolver: DefaultServerNameResolver::new(),
            },
        )
    }

    /// Allows both `https` and `http` targets.
    pub fn https_or_http(self) -> (r: ConnectorBuilder<
        WantsTransport<C, DefaultServerNameResolver>,
    >)
        ensures
            !r.is_https_only(),
            r.tls_config() == self.tls_config(),
            r.resolver() == DefaultServerNameResolver::policy(),
    {
        ConnectorBuilder(
            WantsTransport {
                tls_config: self.0.tls_config,
                https_only: false,
                server_name_resolver: DefaultServerNameResolver::new(),
            },
        )
    }
}

impl<C, R> ConnectorBuilder<WantsTransport<C, R>> {
    /// The client configuration.
    pub closed spec fn tls_config(&self) -> C {
        self.0.tls_config
    }

    /// Whether `http` targets will be refused.
    pub closed spec fn is_https_only(&self) -> bool {
        self.0.https_only
    }

    /// The policy that will name the server to verify.
    pub closed spec fn resolver(&self) -> R {
        self.0.server_name_resolver
    }

    /// Replaces the policy that names the server to verify.
    pub fn with_server_name_resolver<R2>(self, resolver: R2) -> (r: ConnectorBuilder<
        WantsTransport<C, R2>,
    >)
        ensures
            r.is_https_only() == self.is_https_only(),
            r.tls_config() == self.tls_config(),
            r.resolver() == resolver,
    {
        ConnectorBuilder(
            WantsTransport {
                tls_config: self.0.tls_config,
                https_only: self.0.https_only,
                server_name_resolver: resolver,
            },
        )
    }

    /// Verifies every server as `name`, whatever the target. The name may be
    /// written as a host in a URI: brackets around an IPv6 literal are removed.
    pub fn with_server_name(self, name: String) -> (r: ConnectorBuilder<
        WantsTransport<C, FixedServerNameResolver>,
    >)
        ensures
            r.is_https_only() == self.is_https_only(),
            r.tls_config() == self.tls_config(),
            r.resolver().answer() == ServerName::parse_spec(strip_brackets_spec(name@)),
    {
        self.with_server_name_resolver(FixedServerNameResolver::from_host(name))
    }

    /// Builds the connector around the inner transport `http`.
    pub fn wrap_connector<T>(self, http: T) -> (r: HttpsConnector<T, C, R>)
        ensures
            r.forces_https() == self.is_https_only(),
            r.http() == http,
            r.tls_config() == self.tls_config(),
            r.resolver() == self.resolver(),
    {
        let mut connector = HttpsConnector::with_resolver(
            http,
            self.0.tls_config,
            self.0.server_name_resolver,
        );
        if self.0.https_only {
            connector.enforce_https();
        }
        connector
    }
}

} // verus!
