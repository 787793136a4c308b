//! Parsed URL parts as plain values, obtained from the `url` crate.
//!
//! The parts a parsed URL decomposes into are a function of the input string
//! alone, so the outcome of parsing is given a name, `url_parse`, and the one
//! trusted wrapper ties the runtime call to that name. Everything downstream
//! works on the plain parts and is verified.
use vstd::prelude::*;

verus! {

/// The parts of a parsed absolute URL that the validation logic reads.
pub struct UrlParts {
    pub scheme: String,
    pub host: Option<String>,
    pub port: Option<u16>,
    pub path: String,
    pub query: Option<String>,
}

/// Mathematical image of `UrlParts`.
pub struct UrlPartsView {
    pub scheme: Seq<char>,
    pub host: Option<Seq<char>>,
    pub port: Option<u16>,
    pub path: Seq<char>,
    pub query: Option<Seq<char>>,
}

impl View for UrlParts {
    type V = UrlPartsView;

    open spec fn view(&self) -> UrlPartsView {
        UrlPartsView {
            scheme: self.scheme@,
            host: self.host.deep_view(),
            port: self.port,
            path: self.path@,
            query: self.query.deep_view(),
        }
    }
}

/// What `url::Url::parse` decomposes a string into: `None` when the string is
/// no absolute URL, otherwise the scheme, host, explicit port, path and query.
pub uninterp spec fn url_parse(s: Seq<char>) -> Option<UrlPartsView>;

/// Relies on `url::Url::parse` and the accessors `scheme`, `host_str`,
/// `port`, `path` and `query`: for a given input string the parsed parts are
/// the same on every call, here named `url_parse`.
#[verifier::external_body]
pub fn url_parts_of(s: &str) -> (r: Option<UrlParts>)
    ensures
        r is Some <==> url_parse(s@) is Some,
        r matches Some(p) ==> url_parse(s@) == Some(p@),
{
    match url::Url::parse(s) {
        Ok(u) => Some(
            UrlParts {
                scheme: u.scheme().to_string(),
                host: u.host_str().map(|h: &str| h.to_string()),
                port: u.port(),
                path: u.path().to_string(),
                query: u.query().map(|q: &str| q.to_string()),
            },
        ),
        Err(_) => None,
    }
}

} // verus!
