//! The destination of an outgoing connection.

use vstd::prelude::*;

verus! {

/// What a connector reads of a destination: its scheme and its host, each as
/// written in the URI, or absent.
#[derive(Debug, PartialEq, Eq)]
pub struct Target {
    /// The scheme, such as `http` or `https`.
    pub scheme: Option<String>,
    /// The host: a registered name, an IPv4 address, or an IPv6 address in
    /// square brackets.
    pub host: Option<String>,
}

/// The mathematical value of a [`Target`].
pub struct TargetView {
    pub scheme: Option<Seq<char>>,
    pub host: Option<Seq<char>>,
}

/// The characters of an optional string.
pub open spec fn text_of(s: Option<String>) -> Option<Seq<char>> {
    match s {
        Some(s) => Some(s@),
        None => None,
    }
}

impl View for Target {
    type V = TargetView;

    open spec fn view(&self) -> TargetView {
        TargetView { scheme: text_of(self.scheme), host: text_of(self.host) }
    }
}

/// The value of an optional [`Target`].
pub open spec fn target_of(t: Option<Target>) -> Option<TargetView> {
    match t {
        Some(t) => Some(t@),
        None => None,
    }
}

/// What the URI parser of the `http` crate makes of a text: `None` where it
/// rejects the text, else the scheme and the host of the URI it read.
pub uninterp spec fn uri_parts(text: Seq<char>) -> Option<TargetView>;

/// Parses `text` with `http::Uri::from_str` and copies out what
/// `Uri::scheme_str` and `Uri::host` return. The contract only names the
/// result: nothing of the URI grammar is stated or proved here.
#[verifier::external_body]
fn parse_uri(text: &str) -> (r: Option<Target>)
    ensures
        target_of(r) == uri_parts(text@),
{
    match text.parse::<http::Uri>() {
        Ok(uri) => Some(Target {
            scheme: uri.scheme_str().map(str::to_owned),
            host: uri.host().map(str::to_owned),
        }),
        Err(_) => None,
    }
}

impl Target {
    /// A target from its parts.
    pub fn new(scheme: Option<String>, host: Option<String>) -> (r: Target)
        ensures
            r.scheme == scheme,
            r.host == host,
    {
        Target { scheme, host }
    }

    /// Reads a target from the text of a URI. `None` where the text is no URI.
    pub fn parse(text: &str) -> (r: Option<Target>)
        ensures
            target_of(r) == uri_parts(text@),
    {
        parse_uri(text)
    }
}

} // verus!
