//! The client side: which targets get a plain connection, which an encrypted
//! one, and which are refused before anything is opened.

use crate::error::ErrorKind;
use crate::progress::Progress;
use crate::server_name::{
    resolution_of, DefaultServerNameResolver, Resolution, ResolutionView, ResolveError,
    ResolveErrorView, ResolveServerName, ServerName, ServerNameView,
};
use crate::stream::MaybeHttpsStream;
use crate::target::{Target, TargetView};
use crate::tls_stream::{HandshakeState, TlsStream};
use vstd::prelude::*;
use vstd::string::StringExecFns;

pub mod builder;

verus! {

/// Why a target is refused before any connection is attempted.
#[derive(Debug, PartialEq, Eq)]
pub enum Rejection {
    /// The target has no scheme.
    MissingScheme,
    /// The scheme is neither `http` nor `https`.
    UnsupportedScheme(String),
    /// The scheme is `http` and the connector only allows `https`.
    PlaintextDenied,
    /// The target has no valid server name.
    NameResolution(ResolveError),
}

/// The mathematical value of a [`Rejection`].
pub enum RejectionView {
    MissingScheme,
    UnsupportedScheme(Seq<char>),
    PlaintextDenied,
    NameResolution(ResolveErrorView),
}

impl View for Rejection {
    type V = RejectionView;

    open spec fn view(&self) -> RejectionView {
        match *self {
            Rejection::MissingScheme => RejectionView::MissingScheme,
            Rejection::UnsupportedScheme(scheme) => RejectionView::UnsupportedScheme(scheme@),
            Rejection::PlaintextDenied => RejectionView::PlaintextDenied,
            Rejection::NameResolution(e) => RejectionView::NameResolution(e@),
        }
    }
}

impl Rejection {
    /// The group of this error. A denied plaintext request is the only policy
    /// error; the others say that the target cannot be served as written.
    pub open spec fn kind_spec(self) -> ErrorKind {
        match self {
            Rejection::PlaintextDenied => ErrorKind::Policy,
            _ => ErrorKind::Configuration,
        }
    }

    /// The group of this error.
    pub fn kind(&self) -> (r: ErrorKind)
        ensures
            r == self.kind_spec(),
    {
        match self {
            Rejection::PlaintextDenied => ErrorKind::Policy,
            _ => ErrorKind::Configuration,
        }
    }

    /// The text that describes the error to a user.
    pub open spec fn message_spec(self) -> Seq<char> {
        match self {
            Rejection::MissingScheme => "missing scheme"@,
            Rejection::UnsupportedScheme(scheme) => "unsupported scheme "@ + scheme@,
            Rejection::PlaintextDenied => "unsupported scheme http"@,
            Rejection::NameResolution(e) => e.message_spec(),
        }
    }

    /// The text that describes the error to a user.
    pub fn message(&self) -> (r: String)
        ensures
            r@ == self.message_spec(),
    {
        match self {
            Rejection::MissingScheme => "missing scheme".to_owned(),
            Rejection::UnsupportedScheme(scheme) => {
                "unsupported scheme ".to_owned().concat(scheme.as_str())
            },
            Rejection::PlaintextDenied => "unsupported scheme http".to_owned(),
            Rejection::NameResolution(e) => e.message(),
        }
    }
}

/// How a connection to an accepted target is to be made.
#[derive(Debug, PartialEq, Eq)]
pub enum Route {
    /// Open the connection and use it as it is.
    Plain,
    /// Open the connection, then secure it and verify the peer as this name.
    Encrypted(ServerName),
}

/// The mathematical value of a [`Route`].
pub enum RouteView {
    Plain,
    Encrypted(ServerNameView),
}

impl View for Route {
    type V = RouteView;

    open spec fn view(&self) -> RouteView {
        match *self {
            Route::Plain => RouteView::Plain,
            Route::Encrypted(name) => RouteView::Encrypted(name@),
        }
    }
}

/// The outcome of the connector's decision on a target.
pub type Decision = Result<Route, Rejection>;

/// The mathematical value of a [`Decision`].
pub type DecisionView = Result<RouteView, RejectionView>;

/// The value of a connector's decision.
pub open spec fn decision_of(d: Decision) -> DecisionView {
    match d {
        Ok(route) => Ok(route@),
        Err(e) => Err(e@),
    }
}

/// What a scheme asks for under a connector's policy.
#[derive(Debug, Clone, Copy, PartialEq, Eq, Structural)]
pub enum SchemeClass {
    /// `http`, and plaintext is allowed.
    Plaintext,
    /// `https`.
    Encrypted,
    /// `http`, and plaintext is denied.
    Denied,
    /// Any other scheme.
    Unsupported,
    /// No scheme at all.
    Missing,
}

/// The class of a scheme. Schemes are compared letter for letter.
pub open spec fn scheme_class(force_https: bool, scheme: Option<Seq<char>>) -> SchemeClass {
    match scheme {
        None => SchemeClass::Missing,
        Some(s) => if s == "http"@ {
            if force_https {
                SchemeClass::Denied
            } else {
                SchemeClass::Plaintext
            }
        } else if s == "https"@ {
            SchemeClass::Encrypted
        } else {
            SchemeClass::Unsupported
        },
    }
}

/// The decision on an `https` target, given the outcome of its name resolution.
pub open spec fn encrypted_decision(resolution: ResolutionView) -> DecisionView {
    match resolution {
        Ok(name) => Ok(RouteView::Encrypted(name)),
        Err(e) => Err(RejectionView::NameResolution(e)),
    }
}

/// Whether two texts are the same.
fn same_text(a: &str, b: &str) -> (r: bool)
    ensures
        r == (a@ == b@),
{
    a.to_owned() == b.to_owned()
}

/// The class of a scheme under the given policy.
pub fn classify_scheme(force_https: bool, scheme: &Option<String>) -> (r: SchemeClass)
    ensures
        r == scheme_class(force_https, crate::target::text_of(*scheme)),
{
    match scheme {
        None => SchemeClass::Missing,
        Some(s) => {
            if same_text(s.as_str(), "http") {
                if force_https {
                    SchemeClass::Denied
                } else {
                    SchemeClass::Plaintext
                }
            } else if same_text(s.as_str(), "https") {
                SchemeClass::Encrypted
            } else {
                SchemeClass::Unsupported
            }
        },
    }
}

impl Route {
    /// The decision on an `https` target whose name resolution gave `resolution`:
    /// an encrypted route to the resolved name, or the resolver's refusal.
    pub fn for_resolution(resolution: Resolution) -> (r: Decision)
        ensures
            decision_of(r) == encrypted_decision(resolution_of(resolution)),
    {
        match resolution {
            Ok(name) => Ok(Route::Encrypted(name)),
            Err(e) => Err(Rejection::NameResolution(e)),
        }
    }
}

/// Why no stream came of a connection attempt.
#[derive(Debug, PartialEq, Eq)]
pub enum ConnectError<E> {
    /// The target was refused before anything was opened.
    Rejected(Rejection),
    /// The inner transport failed. Its error is passed on as it came.
    Transport(E),
}

impl<E> ConnectError<E> {
    /// The group of this error.
    pub open spec fn kind_spec(self) -> ErrorKind {
        match self {
            ConnectError::Rejected(rejection) => rejection.kind_spec(),
            ConnectError::Transport(_) => ErrorKind::Transport,
        }
    }

    /// The group of this error.
    pub fn kind(&self) -> (r: ErrorKind)
        ensures
            r == self.kind_spec(),
    {
        match self {
            ConnectError::Rejected(rejection) => rejection.kind(),
            ConnectError::Transport(_) => ErrorKind::Transport,
        }
    }
}

/// Whether the inner transport is ready, as the connector passes it on:
/// readiness and suspension as they are, a failure as a transport error.
pub open spec fn readiness<E>(inner: Progress<(), E>) -> Progress<(), ConnectError<E>> {
    match inner {
        Progress::Done(done) => Progress::Done(done),
        Progress::Pending => Progress::Pending,
        Progress::Failed(e) => Progress::Failed(ConnectError::Transport(e)),
    }
}

/// Whether `stream` is what becomes of the connection attempt that ended in
/// `outcome`, on `route`, with the client configuration `config`.
///
/// A failure of the inner transport is passed on as it came. A connection on
/// the plain route is wrapped as it is. A connection on the encrypted route
/// becomes a protected stream that is still in its handshake, which starts
/// from the connection, the configuration and the server name.
pub open spec fn wraps<C, T, H: From<(T, C, ServerName)>, S, E>(
    config: C,
    route: Route,
    outcome: Result<T, E>,
    stream: Result<MaybeHttpsStream<T, H, S>, ConnectError<E>>,
) -> bool {
    match outcome {
        Err(e) => stream == Err::<MaybeHttpsStream<T, H, S>, _>(ConnectError::Transport(e)),
        Ok(connection) => match route {
            Route::Plain => stream == Ok::<_, ConnectError<E>>(
                MaybeHttpsStream::<T, H, S>::Http(connection),
            ),
            Route::Encrypted(name) => match stream {
                Ok(MaybeHttpsStream::Https(tls)) => tls.handshake_state()
                    == HandshakeState::Handshaking && call_ensures(
                    H::from,
                    ((connection, config, name),),
                    tls.handshake(),
                ),
                _ => false,
            },
        },
    }
}

impl Route {
    /// Takes what the inner transport gave for a target on this route and
    /// wraps it. `tls_config` is the client configuration for the handshake
    /// of a protected stream. Nothing is sent on the connection: a handshake
    /// is driven by the first read or write on the stream.
    pub fn connected<T, C, H, S, E>(self, tls_config: C, outcome: Result<T, E>) -> (r: Result<
        MaybeHttpsStream<T, H, S>,
        ConnectError<E>,
    >) where H: From<(T, C, ServerName)>
        ensures
            wraps(tls_config, self, outcome, r),
    {
        match outcome {
            Err(e) => Err(ConnectError::Transport(e)),
            Ok(connection) => match self {
                Route::Plain => Ok(MaybeHttpsStream::Http(connection)),
                Route::Encrypted(name) => {
                    let handshake = H::from((connection, tls_config, name));
                    Ok(MaybeHttpsStream::Https(TlsStream::new(handshake)))
                },
            },
        }
    }
}

/// A connector for `https` targets that may also pass `http` targets through.
///
/// `T` is the inner transport that opens connections, `C` the shared client
/// configuration and `R` the policy that names the server to verify.
///
/// The connector decides; it opens nothing itself. A caller asks [`call`] for
/// the route to a target. Only a route leads to the inner transport: a
/// rejection is final and no connection is attempted for it. What the inner
/// transport then gives goes to [`connected`].
///
/// [`call`]: HttpsConnector::call
/// [`connected`]: HttpsConnector::connected
pub struct HttpsConnector<T, C, R> {
    force_https: bool,
    http: T,
    tls_config: C,
    server_name_resolver: R,
}

impl<T, C> HttpsConnector<T, C, DefaultServerNameResolver> {
    /// A connector over `http` that allows plaintext and names servers by
    /// the default policy.
    pub fn new(http: T, tls_config: C) -> (r: Self)
        ensures
            !r.forces_https(),
            r.http() == http,
            r.tls_config() == tls_config,
            r.resolver() == DefaultServerNameResolver::policy(),
    {
        HttpsConnector {
            force_https: false,
            http,
            tls_config,
            server_name_resolver: DefaultServerNameResolver::new(),
        }
    }
}

impl<T, C> From<(T, C)> for HttpsConnector<T, C, DefaultServerNameResolver> {
    /// A connector from an inner transport and a configuration, as
    /// [`HttpsConnector::new`] makes it.
    fn from(parts: (T, C)) -> (r: Self)
        ensures
            !r.forces_https(),
            r.http() == parts.0,
            r.tls_config() == parts.1,
    {
        HttpsConnector::new(parts.0, parts.1)
    }
}

impl<T, C> vstd::std_specs::convert::FromSpecImpl<(T, C)> for HttpsConnector<T, C, DefaultServerNameResolver> {
    open spec fn obeys_from_spec() -> bool {
        true
    }

    closed spec fn from_spec(parts: (T, C)) -> Self {
        HttpsConnector {
            force_https: false,
            http: parts.0,
            tls_config: parts.1,
            server_name_resolver: DefaultServerNameResolver::policy(),
        }
    }
}

impl<T, C, R> HttpsConnector<T, C, R> {
    /// Whether `http` targets are refused.
    pub closed spec fn forces_https(&self) -> bool {
        self.force_https
    }

    /// The inner transport.
    pub closed spec fn http(&self) -> T {
        self.http
    }

    /// The shared client configuration.
    pub closed spec fn tls_config(&self) -> C {
        self.tls_config
    }

    /// The policy that names the server to verify.
    pub closed spec fn resolver(&self) -> R {
        self.server_name_resolver
    }

    /// A builder for a connector.
    pub fn builder() -> builder::ConnectorBuilder<builder::WantsTlsConfig> {
        builder::ConnectorBuilder::new()
    }

    /// A connector over `http` that allows plaintext and names servers by `resolver`.
    pub fn with_resolver(http: T, tls_config: C, resolver: R) -> (r: Self)
        ensures
            !r.forces_https(),
            r.http() == http,
            r.tls_config() == tls_config,
            r.resolver() == resolver,
    {
        HttpsConnector { force_https: false, http, tls_config, server_name_resolver: resolver }
    }

    /// Refuses `http` targets from now on.
    pub fn enforce_https(&mut self)
        ensures
            final(self).forces_https(),
            final(self).http() == old(self).http(),
            final(self).tls_config() == old(self).tls_config(),
            final(self).resolver() == old(self).resolver(),
    {
        self.force_https = true;
    }

    /// Whether `http` targets are refused.
    pub fn is_https_only(&self) -> (r: bool)
        ensures
            r == self.forces_https(),
    {
        self.force_https
    }

    /// The shared client configuration.
    pub fn shared_config(&self) -> (r: &C)
        ensures
            *r == self.tls_config(),
    {
        &self.tls_config
    }

    /// The inner transport.
    pub fn http_ref(&self) -> (r: &T)
        ensures
            *r == self.http(),
    {
        &self.http
    }

    /// The policy that names the server to verify.
    pub fn server_name_resolver(&self) -> (r: &R)
        ensures
            *r == self.resolver(),
    {
        &self.server_name_resolver
    }

    /// The inner transport, for the caller to open connections with.
    pub fn http_mut(&mut self) -> (r: &mut T)
        ensures
            *r == old(self).http(),
            final(self).http() == *final(r),
            final(self).forces_https() == old(self).forces_https(),
            final(self).tls_config() == old(self).tls_config(),
            final(self).resolver() == old(self).resolver(),
    {
        &mut self.http
    }

    /// Passes on whether the inner transport is ready.
    pub fn poll_ready<E>(&self, inner: Progress<(), E>) -> (r: Progress<(), ConnectError<E>>)
        ensures
            r == readiness(inner),
    {
        match inner {
            Progress::Done(done) => Progress::Done(done),
            Progress::Pending => Progress::Pending,
            Progress::Failed(e) => Progress::Failed(ConnectError::Transport(e)),
        }
    }
}

impl<T, C: Clone, R> HttpsConnector<T, C, R> {
    /// Takes what the inner transport gave for a target on `route` and wraps
    /// it, as [`Route::connected`] does with a clone of the shared
    /// configuration.
    pub fn connected<IO, H, S, E>(&self, route: Route, outcome: Result<IO, E>) -> (r: Result<
        MaybeHttpsStream<IO, H, S>,
        ConnectError<E>,
    >) where H: From<(IO, C, ServerName)>
        ensures
            exists|shared: C| #[trigger]
                cloned(self.tls_config(), shared) && wraps(shared, route, outcome, r),
    {
        let shared = self.tls_config.clone();
        let r = route.connected(shared, outcome);
        assert(cloned(self.tls_config(), shared) && wraps(shared, route, outcome, r));
        r
    }
}

impl<T, C, R: ResolveServerName> HttpsConnector<T, C, R> {
    /// Whether `decision` is a decision of this connector on `target`.
    ///
    /// The scheme and the policy are looked at first. Only an `https` target
    /// reaches the name resolver, and its decision follows from what the
    /// resolver answers.
    pub open spec fn decides(&self, target: TargetView, decision: DecisionView) -> bool {
        match scheme_class(self.forces_https(), target.scheme) {
            SchemeClass::Missing => decision == Err::<RouteView, _>(RejectionView::MissingScheme),
            SchemeClass::Unsupported => decision == Err::<RouteView, _>(
                RejectionView::UnsupportedScheme(target.scheme->0),
            ),
            SchemeClass::Denied => decision == Err::<RouteView, _>(RejectionView::PlaintextDenied),
            SchemeClass::Plaintext => decision == Ok::<_, RejectionView>(RouteView::Plain),
            SchemeClass::Encrypted => exists|resolution: ResolutionView|
                #[trigger] self.resolver().resolves(target, resolution) && decision
                    == encrypted_decision(resolution),
        }
    }

    /// Decides how `dst` is connected to, before anything is opened.
    pub fn call(&self, dst: &Target) -> (r: Decision)
        ensures
            self.decides(dst@, decision_of(r)),
    {
        match classify_scheme(self.force_https, &dst.scheme) {
            SchemeClass::Missing => Err(Rejection::MissingScheme),
            SchemeClass::Unsupported => {
                match &dst.scheme {
                    Some(scheme) => Err(Rejection::UnsupportedScheme(scheme.clone())),
                    None => Err(Rejection::MissingScheme),
                }
            },
            SchemeClass::Denied => Err(Rejection::PlaintextDenied),
            SchemeClass::Plaintext => Ok(Route::Plain),
            SchemeClass::Encrypted => {
                let resolution = self.server_name_resolver.resolve(dst);
                assert(self.resolver().resolves(dst@, resolution_of(resolution)));
                Route::for_resolution(resolution)
            },
        }
    }
}

/// The scheme and the policy settle a target before anything is opened.
///
/// A target without a scheme and a target with a scheme other than `http` and
/// `https` are refused. An `http` target is refused by policy where the
/// connector only allows `https`, and gets the plain route where it does not.
/// Only an `https` target gets an encrypted route or fails for its name.
pub proof fn scheme_settles_the_route<T, C, R: ResolveServerName>(
    connector: HttpsConnector<T, C, R>,
    target: TargetView,
    decision: DecisionView,
)
    requires
        connector.decides(target, decision),
    ensures
        target.scheme is None ==> decision == Err::<RouteView, _>(RejectionView::MissingScheme),
        target.scheme == Some("http"@) ==> decision == (if connector.forces_https() {
            Err(RejectionView::PlaintextDenied)
        } else {
            Ok(RouteView::Plain)
        }),
        target.scheme is Some && target.scheme->0 != "http"@ && target.scheme->0 != "https"@
            ==> decision == Err::<RouteView, _>(RejectionView::UnsupportedScheme(target.scheme->0)),
        decision matches Ok(RouteView::Encrypted(_)) ==> target.scheme == Some("https"@),
        decision matches Err(RejectionView::NameResolution(_)) ==> target.scheme == Some("https"@),
        decision is Ok ==> target.scheme == Some("https"@) || (target.scheme == Some("http"@)
            && !connector.forces_https()),
{
    reveal_strlit("http");
    reveal_strlit("https");
    assert("http"@.len() != "https"@.len());
}

} // verus!
