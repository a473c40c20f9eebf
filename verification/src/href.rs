//! Web addresses. The grammar of URLs is the `url` crate's; this module holds
//! what the rest of the library reads of a parsed URL as plain values, and
//! names what the crate returns.

use vstd::prelude::*;

verus! {

/// The serialization of the URL that `url::Url::parse` makes of `input`;
/// `None` where it returns an error.
pub uninterp spec fn url_text(input: Seq<char>) -> Option<Seq<char>>;

/// What `url::Url::host_str` returns on the URL parsed from `input`; `None`
/// also where `input` does not parse.
pub uninterp spec fn url_host(input: Seq<char>) -> Option<Seq<char>>;

/// What `url::Url::port` returns on the URL parsed from `input`; `None` also
/// where `input` does not parse.
pub uninterp spec fn url_port(input: Seq<char>) -> Option<u16>;

/// What `url::Url::port_or_known_default` returns on the URL parsed from
/// `input`; `None` also where `input` does not parse.
pub uninterp spec fn url_known_port(input: Seq<char>) -> Option<u16>;

/// The serialization of the URL that `url::Url::join` makes of `reference`
/// on the URL parsed from `base`; `None` where either step returns an error.
pub uninterp spec fn url_joined(base: Seq<char>, reference: Seq<char>) -> Option<Seq<char>>;

/// The characters of an optional text.
pub open spec fn text_of(t: Option<String>) -> Option<Seq<char>> {
    match t {
        Some(s) => Some(s@),
        None => None,
    }
}

/// Calls `url::Url::parse` on `input` and returns the URL's serialization,
/// `None` for every error. The contract only names the result.
#[verifier::external_body]
pub(crate) fn parse_url(input: &str) -> (r: Option<String>)
    ensures
        text_of(r) == url_text(input@),
{
    match url::Url::parse(input) {
        Ok(u) => Some(u.to_string()),
        Err(_) => None,
    }
}

/// Parses `input` with `url::Url::parse` and calls `host_str` on the URL.
/// The contract only names the result.
#[verifier::external_body]
pub(crate) fn host_of_url(input: &str) -> (r: Option<String>)
    ensures
        text_of(r) == url_host(input@),
{
    match url::Url::parse(input) {
        Ok(u) => u.host_str().map(String::from),
        Err(_) => None,
    }
}

/// Parses `input` with `url::Url::parse` and calls `port` on the URL. The
/// contract only names the result.
#[verifier::external_body]
pub(crate) fn port_of_url(input: &str) -> (r: Option<u16>)
    ensures
        r == url_port(input@),
{
    match url::Url::parse(input) {
        Ok(u) => u.port(),
        Err(_) => None,
    }
}

/// Parses `input` with `url::Url::parse` and calls `port_or_known_default`
/// on the URL. The contract only names the result.
#[verifier::external_body]
pub(crate) fn known_port_of_url(input: &str) -> (r: Option<u16>)
    ensures
        r == url_known_port(input@),
{
    match url::Url::parse(input) {
        Ok(u) => u.port_or_known_default(),
        Err(_) => None,
    }
}

/// Parses `base` with `url::Url::parse`, calls `join` with `reference` on
/// the URL and returns the serialization of what comes back, `None` for
/// every error. The contract only names the result.
#[verifier::external_body]
pub(crate) fn join_url(base: &str, reference: &str) -> (r: Option<String>)
    ensures
        text_of(r) == url_joined(base@, reference@),
{
    match url::Url::parse(base) {
        Ok(u) => match u.join(reference) {
            Ok(j) => Some(j.to_string()),
            Err(_) => None,
        },
        Err(_) => None,
    }
}

/// A parsed web address: its serialization, its host and port where it has
/// them, and the port at which it is reached where that is known.
#[derive(Debug, PartialEq, Eq)]
pub struct Href {
    text: String,
    host: Option<String>,
    port: Option<u16>,
    known_port: Option<u16>,
}

impl Href {
    /// The serialization.
    pub closed spec fn text(&self) -> Seq<char> {
        self.text@
    }

    /// The host, as text.
    pub closed spec fn host(&self) -> Option<Seq<char>> {
        text_of(self.host)
    }

    /// The port, where the address names one that is not its scheme's default.
    pub closed spec fn port(&self) -> Option<u16> {
        self.port
    }

    /// The port at which the address is reached: the one it names, or the
    /// default of its scheme where it names none and the default is known.
    pub closed spec fn known_port(&self) -> Option<u16> {
        self.known_port
    }

    /// Parses an address. It is `Some` exactly where the text parses as an
    /// absolute URL.
    pub fn parse(input: &str) -> (r: Option<Href>)
        ensures
            r is Some <==> url_text(input@) is Some,
            r matches Some(h) ==> {
                &&& Some(h.text()) == url_text(input@)
                &&& h.host() == url_host(input@)
                &&& h.port() == url_port(input@)
                &&& h.known_port() == url_known_port(input@)
            },
    {
        match parse_url(input) {
            None => None,
            Some(text) => {
                let host = host_of_url(input);
                let port = port_of_url(input);
                let known_port = known_port_of_url(input);
                Some(Href { text, host, port, known_port })
            },
        }
    }

    /// Puts together an address from parts already known.
    pub fn from_parts(
        text: String,
        host: Option<String>,
        port: Option<u16>,
        known_port: Option<u16>,
    ) -> (r: Href)
        ensures
            r.text() == text@,
            r.host() == text_of(host),
            r.port() == port,
            r.known_port() == known_port,
    {
        Href { text, host, port, known_port }
    }

    pub fn as_str(&self) -> (r: &str)
        ensures
            r@ == self.text(),
    {
        self.text.as_str()
    }

    pub fn host_str(&self) -> (r: Option<&str>)
        ensures
            r is Some <==> self.host() is Some,
            r matches Some(h) ==> Some(h@) == self.host(),
    {
        match &self.host {
            Some(h) => Some(h.as_str()),
            None => None,
        }
    }

    pub fn port_number(&self) -> (r: Option<u16>)
        ensures
            r == self.port(),
    {
        self.port
    }

    pub fn known_port_number(&self) -> (r: Option<u16>)
        ensures
            r == self.known_port(),
    {
        self.known_port
    }

    /// A copy of the address.
    pub fn duplicate(&self) -> (r: Href)
        ensures
            r.text() == self.text(),
            r.host() == self.host(),
            r.port() == self.port(),
            r.known_port() == self.known_port(),
    {
        let host = match &self.host {
            Some(h) => Some(h.clone()),
            None => None,
        };
        Href { text: self.text.clone(), host, port: self.port, known_port: self.known_port }
    }
}

/// Resolves `reference` against `base` as a browser would; `None` where
/// `base` is no absolute URL or the reference cannot be resolved.
pub fn join(base: &str, reference: &str) -> (r: Option<String>)
    ensures
        text_of(r) == url_joined(base@, reference@),
{
    join_url(base, reference)
}

} // verus!
