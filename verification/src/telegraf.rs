//! Where a line goes: the address of a collector and the carrier it names.

use vstd::prelude::*;
use vstd::string::*;
use crate::error::Error;

verus! {

/// `url::Url`, carried through as it is.
#[verifier::external_type_specification]
#[verifier::external_body]
pub struct ExUrl(url::Url);

/// What `Url::parse` reads as the scheme of an address, or `None` where it
/// takes the address for no URL.
pub uninterp spec fn url_scheme(address: Seq<char>) -> Option<Seq<char>>;

/// The carrier of a connection.
#[derive(Debug, Clone, Copy, PartialEq, Eq, Structural)]
pub enum Carrier {
    /// A stream that is connected once and then written to.
    Tcp,
    /// Datagrams, one for each line.
    Udp,
}

/// The carrier that a scheme names: `tcp` or `udp`, and no other.
pub open spec fn carrier_of_scheme(scheme: Seq<char>) -> Option<Carrier> {
    if scheme == seq!['t', 'c', 'p'] {
        Some(Carrier::Tcp)
    } else if scheme == seq!['u', 'd', 'p'] {
        Some(Carrier::Udp)
    } else {
        None
    }
}

/// What is said of a scheme that names no carrier.
pub open spec fn scheme_error(scheme: Seq<char>) -> Seq<char> {
    if scheme.len() == 0 {
        "Please specify the protocol 'tcp' or 'udp'"@
    } else {
        "Only 'tcp' and 'udp' is currently supported"@
    }
}

fn same_text(a: &str, b: &str) -> (r: bool)
    ensures
        r == (a@ == b@),
{
    a.to_owned() == b.to_owned()
}

/// Picks the carrier that `scheme` names. Any scheme but `tcp` and `udp` is
/// an error, the empty one with a message of its own.
pub fn carrier_for_scheme(scheme: &str) -> (r: Result<Carrier, Error>)
    ensures
        match r {
            Ok(carrier) => carrier_of_scheme(scheme@) == Some(carrier),
            Err(Error::Custom(msg)) => carrier_of_scheme(scheme@) is None && msg@ == scheme_error(
                scheme@,
            ),
            Err(_) => false,
        },
{
    proof {
        reveal_strlit("tcp");
        reveal_strlit("udp");
        reveal_strlit("");
        assert("tcp"@ =~= seq!['t', 'c', 'p']);
        assert("udp"@ =~= seq!['u', 'd', 'p']);
        assert(""@ =~= Seq::<char>::empty());
    }
    if same_text(scheme, "tcp") {
        Ok(Carrier::Tcp)
    } else if same_text(scheme, "udp") {
        Ok(Carrier::Udp)
    } else if same_text(scheme, "") {
        Err(Error::Custom("Please specify the protocol 'tcp' or 'udp'".to_owned()))
    } else {
        assert(scheme@.len() != 0) by {
            if scheme@.len() == 0 {
                assert(scheme@ =~= ""@);
            }
        }
        Err(Error::Custom("Only 'tcp' and 'udp' is currently supported".to_owned()))
    }
}

/// An address that was read as a URL: the URL, and its scheme as text.
pub struct Endpoint {
    url: url::Url,
    scheme: String,
}

/// Reads `address` with `Url::parse` and takes the scheme of the URL with
/// `Url::scheme`. It succeeds where `Url::parse` does, and the scheme is the
/// one that `url_scheme` names.
#[verifier::external_body]
fn parse_url(address: &str) -> (r: Result<Endpoint, url::ParseError>)
    ensures
        r is Ok <==> url_scheme(address@) is Some,
        r matches Ok(endpoint) ==> url_scheme(address@) == Some(endpoint.scheme@),
{
    match url::Url::parse(address) {
        Ok(url) => Ok(Endpoint { scheme: url.scheme().to_owned(), url }),
        Err(e) => Err(e),
    }
}

impl Endpoint {
    /// The scheme of the address.
    pub closed spec fn scheme(&self) -> Seq<char> {
        self.scheme@
    }

    /// The URL that the address was read as.
    pub closed spec fn parsed(&self) -> url::Url {
        self.url
    }

    /// Reads an address. One that is no URL is an error.
    pub fn parse(address: &str) -> (r: Result<Endpoint, Error>)
        ensures
            match r {
                Ok(endpoint) => url_scheme(address@) == Some(endpoint.scheme()),
                Err(e) => url_scheme(address@) is None && e is UrlParsing,
            },
    {
        match parse_url(address) {
            Ok(endpoint) => Ok(endpoint),
            Err(e) => Err(Error::from(e)),
        }
    }

    /// The carrier that the address names by its scheme.
    pub fn carrier(&self) -> (r: Result<Carrier, Error>)
        ensures
            match r {
                Ok(carrier) => carrier_of_scheme(self.scheme()) == Some(carrier),
                Err(Error::Custom(msg)) => carrier_of_scheme(self.scheme()) is None && msg@
                    == scheme_error(self.scheme()),
                Err(_) => false,
            },
    {
        carrier_for_scheme(self.scheme.as_str())
    }

    /// The scheme of the address, as text.
    pub fn scheme_text(&self) -> (r: &str)
        ensures
            r@ == self.scheme(),
    {
        self.scheme.as_str()
    }

    /// The URL of the address, for the one who resolves it.
    pub fn url(&self) -> (r: &url::Url)
        ensures
            *r == self.parsed(),
    {
        &self.url
    }
}

} // verus!
