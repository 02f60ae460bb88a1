//! Peer addresses.
//!
//! An address is what this layer reads of a URL: the scheme, which selects
//! the transport, and the host and port that the transport dials.

use vstd::prelude::*;

verus! {

/// The parts of the URL that `text` parses to: its scheme, its host and its
/// port; `None` where `text` is no URL.
pub uninterp spec fn url_parts(text: Seq<char>) -> Option<
    (Seq<char>, Option<Seq<char>>, Option<u16>),
>;

/// An optional string as a mathematical value.
pub open spec fn opt_text(s: Option<String>) -> Option<Seq<char>> {
    match s {
        Some(t) => Some(t@),
        None => None,
    }
}

/// The parts of a parsed URL as mathematical values.
pub open spec fn parts_view(p: Option<(String, Option<String>, Option<u16>)>) -> Option<
    (Seq<char>, Option<Seq<char>>, Option<u16>),
> {
    match p {
        Some((scheme, host, port)) => Some((scheme@, opt_text(host), port)),
        None => None,
    }
}

/// Parses `text` with `url::Url::parse` and reads the result's `scheme()`,
/// `host_str()` and `port()`.  The contract only names what the parser
/// gives: the same text always parses to the same parts.
#[verifier::external_body]
fn parse_url(text: &str) -> (r: Option<(String, Option<String>, Option<u16>)>)
    ensures
        parts_view(r) == url_parts(text@),
{
    match url::Url::parse(text) {
        Ok(u) => Some((u.scheme().to_string(), u.host_str().map(str::to_string), u.port())),
        Err(_) => None,
    }
}

/// The address of a peer.
#[derive(Clone, Debug)]
pub struct Address {
    /// The scheme, with its upgrade suffix if it has one: `tcp`, `tcp+tls`,
    /// `tor`.
    pub scheme: String,
    /// The host, where the URL names one.
    pub host: Option<String>,
    /// The port, where the URL names one.
    pub port: Option<u16>,
}

/// An address as a mathematical value.
pub struct AddressView {
    pub scheme: Seq<char>,
    pub host: Option<Seq<char>>,
    pub port: Option<u16>,
}

impl View for Address {
    type V = AddressView;

    open spec fn view(&self) -> AddressView {
        AddressView { scheme: self.scheme@, host: opt_text(self.host), port: self.port }
    }
}

impl Address {
    /// The address that `text` names, when `text` is a URL.
    pub fn parse(text: &str) -> (r: Option<Address>)
        ensures
            r.is_some() == url_parts(text@).is_some(),
            r matches Some(a) ==> url_parts(text@) == Some((a@.scheme, a@.host, a@.port)),
    {
        match parse_url(text) {
            Some((scheme, host, port)) => Some(Address { scheme, host, port }),
            None => None,
        }
    }

    /// An address from its parts.
    pub fn new(scheme: &str, host: &str, port: u16) -> (r: Address)
        ensures
            r@ == (AddressView { scheme: scheme@, host: Some(host@), port: Some(port) }),
    {
        Address { scheme: scheme.to_owned(), host: Some(host.to_owned()), port: Some(port) }
    }

    /// A copy of this address.
    pub fn duplicate(&self) -> (r: Address)
        ensures
            r == *self,
    {
        let host = match &self.host {
            Some(h) => Some(h.clone()),
            None => None,
        };
        Address { scheme: self.scheme.clone(), host, port: self.port }
    }
}

} // verus!
