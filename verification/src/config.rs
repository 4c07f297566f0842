//! The roots of trust of a client configuration.

use crate::error::ErrorKind;
use crate::text::{decimal, decimal_string};
use vstd::prelude::*;
use vstd::string::StringExecFns;

verus! {

/// `rustls::RootCertStore`: a list of trust anchors.
#[verifier::external_type_specification]
#[verifier::external_body]
pub struct ExRootCertStore(rustls::RootCertStore);

/// `rustls::Error`.
#[verifier::external_type_specification]
#[verifier::external_body]
pub struct ExRustlsError(rustls::Error);

/// A trust anchor: the parts of a root certificate that a verifier keeps.
pub struct TrustAnchorView {
    /// The subject, DER-encoded.
    pub subject: Seq<u8>,
    /// The subject's public key information, DER-encoded.
    pub subject_public_key_info: Seq<u8>,
    /// The name constraints, DER-encoded, if the certificate has any.
    pub name_constraints: Option<Seq<u8>>,
}

/// The trust anchors that a root store holds, in the order they were added.
pub uninterp spec fn anchors(store: rustls::RootCertStore) -> Seq<TrustAnchorView>;

/// What `webpki::anchor_from_trusted_cert` makes of a DER-encoded
/// certificate: `None` where it rejects the bytes, else the anchor it read.
pub uninterp spec fn trust_anchor_of(der: Seq<u8>) -> Option<TrustAnchorView>;

/// `RootCertStore::empty` gives a store without anchors.
pub assume_specification[ rustls::RootCertStore::empty ]() -> (store: rustls::RootCertStore)
    ensures
        anchors(store).len() == 0,
;

/// `RootCertStore::is_empty` says whether the store has no anchor.
pub assume_specification[ rustls::RootCertStore::is_empty ](store: &rustls::RootCertStore) -> (b:
    bool)
    ensures
        b == (anchors(*store).len() == 0),
;

/// Adds one certificate with `RootCertStore::add`, which reads a trust anchor
/// from it with `webpki::anchor_from_trusted_cert`. Where that succeeds the
/// anchor is appended to the store; where it fails the store is unchanged and
/// the error comes back.
#[verifier::external_body]
fn add_root(store: &mut rustls::RootCertStore, der: &Vec<u8>) -> (r: Result<(), rustls::Error>)
    ensures
        r is Ok == trust_anchor_of(der@) is Some,
        anchors(*final(store)) == match trust_anchor_of(der@) {
            Some(anchor) => anchors(*old(store)).push(anchor),
            None => anchors(*old(store)),
        },
{
    store.add(rustls::pki_types::CertificateDer::from(der.clone()))
}

/// The anchors of the certificates that are accepted, in their order.
pub open spec fn accepted_anchors(certs: Seq<Vec<u8>>) -> Seq<TrustAnchorView>
    decreases certs.len(),
{
    if certs.len() == 0 {
        Seq::empty()
    } else {
        match trust_anchor_of(certs.last()@) {
            Some(anchor) => accepted_anchors(certs.drop_last()).push(anchor),
            None => accepted_anchors(certs.drop_last()),
        }
    }
}

/// Why a set of certificates gives no roots of trust.
#[derive(Debug, PartialEq, Eq)]
pub enum RootsError {
    /// There is no certificate at all. The text says what went wrong while
    /// they were loaded.
    NoCertificates(String),
    /// There are certificates, this many, and none of them is valid.
    NoValidCertificates(usize),
}

impl RootsError {
    /// The group of this error: roots that are missing are a fault of the
    /// configuration.
    pub fn kind(&self) -> (r: ErrorKind)
        ensures
            r == ErrorKind::Configuration,
    {
        ErrorKind::Configuration
    }

    /// The text that describes the error to a user.
    pub open spec fn message_spec(self) -> Seq<char> {
        match self {
            RootsError::NoCertificates(errors) => "no native root CA certificates found (errors: "@
                + errors@ + ")"@,
            RootsError::NoValidCertificates(invalid) =>
                "no valid native root CA certificates found ("@ + decimal(invalid as nat)
                    + " invalid)"@,
        }
    }

    /// The text that describes the error to a user.
    pub fn message(&self) -> (r: String)
        ensures
            r@ == self.message_spec(),
    {
        match self {
            RootsError::NoCertificates(errors) => {
                "no native root CA certificates found (errors: ".to_owned().concat(
                    errors.as_str(),
                ).concat(")")
            },
            RootsError::NoValidCertificates(invalid) => {
                "no valid native root CA certificates found (".to_owned().concat(
                    decimal_string(*invalid).as_str(),
                ).concat(" invalid)")
            },
        }
    }
}

/// What [`native_roots`] gives for `certs`: the error for no certificates or
/// for none that is valid, else a store that holds the anchors of the valid
/// ones in their order.
pub open spec fn roots_of(
    certs: Seq<Vec<u8>>,
    load_errors: Seq<char>,
    r: Result<rustls::RootCertStore, RootsError>,
) -> bool {
    if certs.len() == 0 {
        r matches Err(RootsError::NoCertificates(errors)) && errors@ == load_errors
    } else if accepted_anchors(certs).len() == 0 {
        r matches Err(RootsError::NoValidCertificates(invalid)) && invalid == certs.len()
    } else {
        r matches Ok(store) && anchors(store) == accepted_anchors(certs)
    }
}

/// Builds the roots of trust from the certificates of the platform.
///
/// `certs` holds the certificates as they were loaded, each DER-encoded, and
/// `load_errors` a description of what went wrong while loading. Certificates
/// that are not valid are passed over.
pub fn native_roots(certs: &Vec<Vec<u8>>, load_errors: &str) -> (r: Result<
    rustls::RootCertStore,
    RootsError,
>)
    ensures
        roots_of(certs@, load_errors@, r),
{
    if certs.len() == 0 {
        return Err(RootsError::NoCertificates(load_errors.to_owned()));
    }
    let mut roots = rustls::RootCertStore::empty();
    let mut invalid_count: usize = 0;
    let mut i: usize = 0;
    assert(certs@.take(0) =~= Seq::<Vec<u8>>::empty());
    while i < certs.len()
        invariant
            i <= certs.len(),
            anchors(roots) == accepted_anchors(certs@.take(i as int)),
            invalid_count + anchors(roots).len() == i,
        decreases certs.len() - i,
    {
        assert(certs@.take(i + 1).drop_last() =~= certs@.take(i as int));
        assert(certs@.take(i + 1).last() == certs@[i as int]);
        match add_root(&mut roots, &certs[i]) {
            Ok(_) => {},
            Err(_) => {
                invalid_count = invalid_count + 1;
            },
        }
        i = i + 1;
    }
    assert(certs@.take(i as int) =~= certs@);
    if roots.is_empty() {
        return Err(RootsError::NoValidCertificates(invalid_count));
    }
    Ok(roots)
}

} // verus!
