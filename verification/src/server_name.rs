//! The identity a client asserts for certificate verification, and the
//! policies that derive it from a connection target.

use crate::target::{Target, TargetView};
use vstd::prelude::*;
use vstd::string::StrSliceExecFns;

verus! {

/// An IP address, by its octets in network order.
#[derive(Debug, Clone, Copy, PartialEq, Eq)]
pub enum IpAddr {
    V4([u8; 4]),
    V6([u8; 16]),
}

/// A validated host identity: a DNS name or an IP address.
#[derive(Debug, PartialEq, Eq)]
pub enum ServerName {
    /// The server is known by a DNS name, kept as it was written.
    DnsName(String),
    /// The server is known by its address.
    IpAddress(IpAddr),
}

/// The mathematical value of a [`ServerName`].
pub enum ServerNameView {
    DnsName(Seq<char>),
    V4(Seq<u8>),
    V6(Seq<u8>),
}

impl View for ServerName {
    type V = ServerNameView;

    open spec fn view(&self) -> ServerNameView {
        match *self {
            ServerName::DnsName(name) => ServerNameView::DnsName(name@),
            ServerName::IpAddress(IpAddr::V4(octets)) => ServerNameView::V4(octets@),
            ServerName::IpAddress(IpAddr::V6(octets)) => ServerNameView::V6(octets@),
        }
    }
}

/// Why a target has no server name.
#[derive(Debug, PartialEq, Eq)]
pub enum ResolveError {
    /// The host is neither a syntactically valid DNS name nor an IP address.
    InvalidDnsName,
    /// A custom policy refused the target, for the reason given.
    Refused(String),
}

/// The mathematical value of a [`ResolveError`].
pub enum ResolveErrorView {
    InvalidDnsName,
    Refused(Seq<char>),
}

impl View for ResolveError {
    type V = ResolveErrorView;

    open spec fn view(&self) -> ResolveErrorView {
        match *self {
            ResolveError::InvalidDnsName => ResolveErrorView::InvalidDnsName,
            ResolveError::Refused(reason) => ResolveErrorView::Refused(reason@),
        }
    }
}

impl ResolveError {
    /// The text that describes the error to a user.
    pub open spec fn message_spec(self) -> Seq<char> {
        match self {
            ResolveError::InvalidDnsName => "invalid dns name"@,
            ResolveError::Refused(reason) => reason@,
        }
    }

    /// The text that describes the error to a user.
    pub fn message(&self) -> (r: String)
        ensures
            r@ == self.message_spec(),
    {
        match self {
            ResolveError::InvalidDnsName => "invalid dns name".to_owned(),
            ResolveError::Refused(reason) => reason.clone(),
        }
    }
}

/// The outcome of a name resolution.
pub type Resolution = Result<ServerName, ResolveError>;

/// The mathematical value of a [`Resolution`].
pub type ResolutionView = Result<ServerNameView, ResolveErrorView>;

/// The value of the outcome of a name resolution.
pub open spec fn resolution_of(r: Resolution) -> ResolutionView {
    match r {
        Ok(name) => Ok(name@),
        Err(e) => Err(e@),
    }
}

/// The value of an optional server name.
pub open spec fn name_of(r: Option<ServerName>) -> Option<ServerNameView> {
    match r {
        Some(name) => Some(name@),
        None => None,
    }
}

/// What `rustls_pki_types::ServerName::try_from` makes of a text: `None`
/// where it rejects the text, else the name it read.
pub uninterp spec fn server_name_of(text: Seq<char>) -> Option<ServerNameView>;

/// Validates `text` with `rustls_pki_types::ServerName::try_from` and copies
/// the name out of the variant that comes back. The contract names the result
/// and claims one thing more, which the validator's source shows: a text that
/// is accepted as a DNS name is kept letter for letter.
#[verifier::external_body]
fn parse_server_name(text: &str) -> (r: Option<ServerName>)
    ensures
        name_of(r) == server_name_of(text@),
        r matches Some(ServerName::DnsName(name)) ==> name@ == text@,
{
    match rustls_pki_types::ServerName::try_from(text.to_owned()) {
        Ok(rustls_pki_types::ServerName::DnsName(name)) => {
            Some(ServerName::DnsName(name.as_ref().to_owned()))
        },
        Ok(rustls_pki_types::ServerName::IpAddress(rustls_pki_types::IpAddr::V4(ip))) => {
            Some(ServerName::IpAddress(IpAddr::V4(*ip.as_ref())))
        },
        Ok(rustls_pki_types::ServerName::IpAddress(rustls_pki_types::IpAddr::V6(ip))) => {
            Some(ServerName::IpAddress(IpAddr::V6(*ip.as_ref())))
        },
        _ => None,
    }
}

/// A host without the square brackets that surround an IPv6 literal in a URI.
/// A text that does not both start with `[` and end with `]` is left alone.
pub open spec fn strip_brackets_spec(host: Seq<char>) -> Seq<char> {
    if host.len() >= 2 && host.first() == '[' && host.last() == ']' {
        host.subrange(1, host.len() - 1)
    } else {
        host
    }
}

/// Removes the square brackets around an IPv6 literal.
pub fn strip_brackets(host: &str) -> (r: &str)
    ensures
        r@ == strip_brackets_spec(host@),
{
    let len = host.unicode_len();
    if len >= 2 && host.get_char(0) == '[' && host.get_char(len - 1) == ']' {
        host.substring_char(1, len - 1)
    } else {
        host
    }
}

impl Clone for ServerName {
    fn clone(&self) -> (r: Self)
        ensures
            r == *self,
    {
        match self {
            ServerName::DnsName(name) => ServerName::DnsName(name.clone()),
            ServerName::IpAddress(ip) => ServerName::IpAddress(*ip),
        }
    }
}

impl ServerName {
    /// The outcome of validating `text` as a server name.
    pub open spec fn parse_spec(text: Seq<char>) -> ResolutionView {
        match server_name_of(text) {
            Some(name) => Ok(name),
            None => Err(ResolveErrorView::InvalidDnsName),
        }
    }

    /// Validates `text` as a DNS name or an IP address.
    pub fn parse(text: &str) -> (r: Resolution)
        ensures
            resolution_of(r) == Self::parse_spec(text@),
            r matches Ok(ServerName::DnsName(name)) ==> name@ == text@,
    {
        match parse_server_name(text) {
            Some(name) => Ok(name),
            None => Err(ResolveError::InvalidDnsName),
        }
    }
}

/// A policy that maps a connection target to the identity to verify.
pub trait ResolveServerName {
    /// Whether `outcome` is an answer that this policy gives for `target`.
    /// A policy that does not say otherwise may give any answer.
    open spec fn resolves(&self, target: TargetView, outcome: ResolutionView) -> bool {
        true
    }

    /// The server name to verify for `target`, or the reason there is none.
    fn resolve(&self, target: &Target) -> (r: Resolution)
        ensures
            self.resolves(target@, resolution_of(r)),
    ;
}

/// The host of a target as the default policy reads it: without brackets,
/// and empty where the target has no host.
pub open spec fn default_host(target: TargetView) -> Seq<char> {
    match target.host {
        Some(host) => strip_brackets_spec(host),
        None => Seq::empty(),
    }
}

/// The default policy: the host of the target, without IPv6 brackets.
pub struct DefaultServerNameResolver(());

impl DefaultServerNameResolver {
    /// The one value of the default policy.
    pub closed spec fn policy() -> Self {
        DefaultServerNameResolver(())
    }

    /// The default policy.
    pub fn new() -> (r: Self)
        ensures
            r == Self::policy(),
    {
        DefaultServerNameResolver(())
    }
}

impl Default for DefaultServerNameResolver {
    fn default() -> (r: Self)
        ensures
            r == Self::policy(),
    {
        DefaultServerNameResolver(())
    }
}

impl ResolveServerName for DefaultServerNameResolver {
    open spec fn resolves(&self, target: TargetView, outcome: ResolutionView) -> bool {
        outcome == ServerName::parse_spec(default_host(target))
    }

    fn resolve(&self, target: &Target) -> (r: Resolution)
        ensures
            r matches Ok(ServerName::DnsName(name)) ==> name@ == default_host(target@),
    {
        match &target.host {
            Some(host) => ServerName::parse(strip_brackets(host.as_str())),
            None => {
                proof {
                    reveal_strlit("");
                    assert(""@ =~= Seq::<char>::empty());
                }
                ServerName::parse("")
            },
        }
    }
}

/// What a [`FixedServerNameResolver`] holds.
enum FixedName {
    /// A name that was validated before.
    Validated(ServerName),
    /// A host as it was written, without brackets, validated when asked for.
    Written(String),
}

/// A policy that gives the same name for every target. It serves to connect
/// to an address while verifying against a logical host name.
pub struct FixedServerNameResolver {
    name: FixedName,
}

impl FixedServerNameResolver {
    /// The answer that this policy gives for every target.
    pub closed spec fn answer(&self) -> ResolutionView {
        match self.name {
            FixedName::Validated(name) => Ok(name@),
            FixedName::Written(text) => ServerName::parse_spec(text@),
        }
    }

    /// A policy that always answers with `name`.
    pub fn new(name: ServerName) -> (r: Self)
        ensures
            r.answer() == Ok::<ServerNameView, ResolveErrorView>(name@),
    {
        FixedServerNameResolver { name: FixedName::Validated(name) }
    }

    /// A policy that always answers with what `host` names. The host may be
    /// written as in a URI: brackets around an IPv6 literal are removed. It is
    /// validated each time the policy is asked.
    pub fn from_host(host: String) -> (r: Self)
        ensures
            r.answer() == ServerName::parse_spec(strip_brackets_spec(host@)),
    {
        let name = strip_brackets(host.as_str()).to_owned();
        FixedServerNameResolver { name: FixedName::Written(name) }
    }
}

impl ResolveServerName for FixedServerNameResolver {
    open spec fn resolves(&self, target: TargetView, outcome: ResolutionView) -> bool {
        outcome == self.answer()
    }

    fn resolve(&self, target: &Target) -> (r: Resolution) {
        match &self.name {
            FixedName::Validated(name) => Ok(name.clone()),
            FixedName::Written(text) => ServerName::parse(text.as_str()),
        }
    }
}

/// A host in square brackets is read without them.
pub proof fn brackets_are_stripped(inner: Seq<char>)
    ensures
        strip_brackets_spec(seq!['['] + inner + seq![']']) == inner,
{
    let host = seq!['['] + inner + seq![']'];
    assert(host.subrange(1, host.len() - 1) =~= inner);
}

/// A host that is not in square brackets is read as it is written.
pub proof fn plain_host_is_unchanged(host: Seq<char>)
    requires
        host.len() == 0 || host.first() != '[' || host.last() != ']',
    ensures
        strip_brackets_spec(host) == host,
{
}

/// What the default policy answers depends on the host of the target alone,
/// read without brackets: two targets with the same such host get the same
/// answer, whatever their schemes.
pub proof fn default_policy_reads_the_host(
    resolver: DefaultServerNameResolver,
    a: TargetView,
    b: TargetView,
    outcome: ResolutionView,
)
    requires
        default_host(a) == default_host(b),
    ensures
        resolver.resolves(a, outcome) == resolver.resolves(b, outcome),
{
}

} // verus!
