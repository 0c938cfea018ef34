//! The host part of a domain, the argument of a client connect.
use vstd::prelude::*;

verus! {

#[verifier::external_type_specification]
#[verifier::external_body]
pub struct ExUrl(url::Url);

/// The host part of a URL, where it has one; it depends on the URL alone.
pub uninterp spec fn url_host_of(u: url::Url) -> Option<Seq<char>>;

/// Relies on `url::Url::host_str`: the host part of the URL, where it has one.
#[verifier::external_body]
fn url_host(u: &url::Url) -> (r: Option<String>)
    ensures
        match r {
            Some(h) => url_host_of(*u) == Some(h@),
            None => url_host_of(*u) is None,
        },
{
    match u.host_str() {
        Some(h) => Some(h.to_string()),
        None => None,
    }
}

/// The host part of a domain (without scheme, port and path).
///
/// Strings and string slices convert into a `Host`; so does the host of a URL.
#[derive(Debug)]
pub struct Host(String);

impl Host {
    /// The host's text.
    pub closed spec fn text(&self) -> Seq<char> {
        self.0@
    }

    /// A host with the text of `host`.
    pub fn new(host: &str) -> (r: Host)
        ensures
            r.text() == host@,
    {
        Host(host.to_string())
    }

    /// A host that owns `host`.
    pub fn from_string(host: String) -> (r: Host)
        ensures
            r.text() == host@,
    {
        Host(host)
    }

    /// The host as string. Consumes self.
    pub fn as_string(self) -> (r: String)
        ensures
            r@ == self.text(),
    {
        self.0
    }

    /// The host of `url`, or `None` where the URL has none.
    pub fn from_url(url: &url::Url) -> (r: Option<Host>)
        ensures
            r is None <==> url_host_of(*url) is None,
            r matches Some(h) ==> url_host_of(*url) == Some(h.text()),
    {
        match url_host(url) {
            Some(h) => Some(Host(h)),
            None => None,
        }
    }
}

/// A host made from a `String` holds exactly its text.
pub proof fn lemma_host_from_string(v: String)
    ensures
        <Host as vstd::std_specs::convert::FromSpec<String>>::from_spec(v).text() == v@,
{
}

impl From<&str> for Host {
    fn from(host: &str) -> Host {
        Host::new(host)
    }
}

impl vstd::std_specs::convert::FromSpecImpl<&str> for Host {
    open spec fn obeys_from_spec() -> bool {
        false
    }

    open spec fn from_spec(v: &str) -> Host {
        arbitrary()
    }
}

impl From<String> for Host {
    fn from(host: String) -> Host {
        Host(host)
    }
}

impl vstd::std_specs::convert::FromSpecImpl<String> for Host {
    open spec fn obeys_from_spec() -> bool {
        true
    }

    closed spec fn from_spec(v: String) -> Host {
        Host(v)
    }
}

} // verus!
