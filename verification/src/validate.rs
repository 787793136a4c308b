//! Request validation: turns a loosely specified proof request into a
//! validated notarization configuration, or a typed error. Pure functions, no
//! I/O, no panics.
use vstd::prelude::*;
use vstd::string::StrSliceExecFns;
use vstd::string::StringExecFns;
use vstd::utf8::encode_utf8;

use crate::errors::InputError;
use crate::params::Method;
use crate::params::NotaryConfig;
use crate::params::NotaryConfigBuilder;
use crate::params::NotaryConfigView;
use crate::params::NotarizeParams;
use crate::params::NotarizeParamsBuilder;
use crate::params::NotarizeParamsView;
use crate::strutil::first_colon;
use crate::strutil::lemma_first_colon_at;
use crate::strutil::lemma_first_colon_none;
use crate::strutil::char_eq_nocase;
use crate::strutil::seq_eq_nocase;
use crate::strutil::str_eq_nocase;
use crate::strutil::str_eq_str;
use crate::strutil::to_uppercase_str;
use crate::strutil::upper_of;
use crate::strutil::trim_slash;
use crate::strutil::trim_slash_str;
use crate::strutil::trim_spec;
use crate::strutil::trim_str;
use crate::urlparts::url_parse;
use crate::urlparts::url_parts_of;
use crate::urlparts::UrlParts;
use crate::urlparts::UrlPartsView;

verus! {

/// The URL schemes this library knows.
#[derive(Clone, Copy, PartialEq, Eq, Structural, Debug)]
pub enum Scheme {
    Http,
    Https,
}

/// The scheme a scheme string names, if any.
pub open spec fn scheme_of(s: Seq<char>) -> Option<Scheme> {
    if s == "http"@ {
        Some(Scheme::Http)
    } else if s == "https"@ {
        Some(Scheme::Https)
    } else {
        None
    }
}

/// The port a URL without an explicit port resolves to.
pub open spec fn default_port(sch: Scheme) -> u16 {
    match sch {
        Scheme::Http => 80,
        Scheme::Https => 443,
    }
}

/// The URL's explicit port, or the scheme's default.
pub open spec fn resolved_port(p: UrlPartsView, sch: Scheme) -> u16 {
    match p.port {
        Some(pt) => pt,
        None => default_port(sch),
    }
}

/// A URL string passes validation when it parses, its scheme is in the
/// allowed set, and it has a host.
pub open spec fn url_ok(s: Seq<char>, allow_http: bool) -> bool {
    &&& url_parse(s) matches Some(p)
    &&& scheme_of(p.scheme) matches Some(sch)
    &&& (allow_http || sch == Scheme::Https)
    &&& p.host is Some
}

/// The error a URL string fails validation with: `InvalidUrlFormat` carries
/// the string when it does not parse; `InvalidUrlProtocol` carries the scheme
/// when that is outside the allowed set; `MissingUrlHost` carries the string
/// when the URL has no host. Checked in that order.
pub open spec fn url_err_matches(s: Seq<char>, allow_http: bool, e: InputError) -> bool {
    match e {
        InputError::InvalidUrlFormat(t) => t@ == s && url_parse(s) is None,
        InputError::InvalidUrlProtocol(t) => url_parse(s) matches Some(p) && t@ == p.scheme && (
        scheme_of(p.scheme) is None || (!allow_http && scheme_of(p.scheme) == Some(Scheme::Http))),
        InputError::MissingUrlHost(t) => {
            &&& t@ == s
            &&& url_parse(s) matches Some(p)
            &&& scheme_of(p.scheme) matches Some(sch)
            &&& (allow_http || sch == Scheme::Https)
            &&& p.host is None
        },
        _ => false,
    }
}

/// A URL whose parts passed validation.
pub struct ValidatedUrl {
    pub parts: UrlParts,
    pub host: String,
    pub scheme: Scheme,
    pub port: u16,
}

/// Parses a URL string and checks scheme and host. `https` is always
/// accepted; `http` only when `allow_http` is set.
pub fn try_from_url(url_str: &str, allow_http: bool) -> (r: Result<ValidatedUrl, InputError>)
    ensures
        r is Ok <==> url_ok(url_str@, allow_http),
        r matches Ok(v) ==> {
            &&& url_parse(url_str@) matches Some(p)
            &&& v.parts@ == p
            &&& Some(v.host@) == p.host
            &&& Some(v.scheme) == scheme_of(p.scheme)
            &&& v.port == resolved_port(p, v.scheme)
        },
        r matches Err(e) ==> url_err_matches(url_str@, allow_http, e),
{
    let parts = match url_parts_of(url_str) {
        Some(p) => p,
        None => {
            return Err(InputError::InvalidUrlFormat(String::from_str(url_str)));
        },
    };
    let scheme = if str_eq_str(parts.scheme.as_str(), "http") {
        Scheme::Http
    } else if str_eq_str(parts.scheme.as_str(), "https") {
        Scheme::Https
    } else {
        return Err(InputError::InvalidUrlProtocol(parts.scheme));
    };
    if scheme == Scheme::Http && !allow_http {
        return Err(InputError::InvalidUrlProtocol(parts.scheme));
    }
    let host = match &parts.host {
        Some(h) => h.clone(),
        None => {
            return Err(InputError::MissingUrlHost(String::from_str(url_str)));
        },
    };
    let port = match parts.port {
        Some(p) => p,
        None => match scheme {
            Scheme::Https => 443,
            Scheme::Http => 80,
        },
    };
    Ok(ValidatedUrl { parts, host, scheme, port })
}

/// Host and port of the URL whose exchange is to be proven.
pub struct ProvenUrl {
    pub host: String,
    pub port: u16,
}

/// Validates a proof-target URL. Only `https` is accepted: an exchange
/// without TLS cannot be notarized. The derived host and port are the URL's
/// own, the port defaulting to 443 when absent; an `http` target fails with
/// `InvalidUrlProtocol`.
pub fn parse_proven_url(url_str: &str) -> (r: Result<ProvenUrl, InputError>)
    ensures
        r is Ok <==> url_ok(url_str@, false),
        r matches Ok(u) ==> url_parse(url_str@) matches Some(p) && Some(u.host@) == p.host
            && u.port == resolved_port(p, Scheme::Https),
        r matches Err(e) ==> url_err_matches(url_str@, false, e),
        (url_parse(url_str@) matches Some(p) && scheme_of(p.scheme) == Some(Scheme::Http)) ==> (r
        matches Err(e) && e is InvalidUrlProtocol),
{
    match try_from_url(url_str, false) {
        Ok(v) => Ok(ProvenUrl { host: v.host, port: v.port }),
        Err(e) => Err(e),
    }
}

/// The notary config a notary URL validates to.
pub open spec fn notary_config_of(p: UrlPartsView, sch: Scheme) -> NotaryConfigView {
    NotaryConfigView {
        host: p.host.unwrap(),
        port: resolved_port(p, sch),
        path_prefix: trim_slash(p.path),
        enable_tls: sch == Scheme::Https,
    }
}

/// Validates a notary URL. Both `http` and `https` are accepted; TLS towards
/// the notary is enabled exactly when the scheme is `https`; the path prefix
/// is the URL path with leading and trailing slashes trimmed.
pub fn parse_notary_url(url_str: &str) -> (r: Result<NotaryConfig, InputError>)
    ensures
        r is Ok <==> url_ok(url_str@, true),
        r matches Ok(c) ==> url_parse(url_str@) matches Some(p) && scheme_of(
            p.scheme,
        ) matches Some(sch) && c@ == notary_config_of(p, sch),
        r matches Err(e) ==> url_err_matches(url_str@, true, e),
{
    let v = match try_from_url(url_str, true) {
        Ok(v) => v,
        Err(e) => {
            return Err(e);
        },
    };
    let path_prefix = trim_slash_str(v.parts.path.as_str());
    let enable_tls = v.scheme == Scheme::Https;
    let built = NotaryConfigBuilder::default().host(v.host).port(v.port).path_prefix(
        String::from_str(path_prefix),
    ).enable_tls(enable_tls).build();
    match built {
        Ok(c) => Ok(c),
        Err(e) => Err(InputError::NotaryConfig(e)),
    }
}

/// What a raw header string parses to: split at the first colon, both sides
/// trimmed; no colon, or an empty key or value, is a failure.
pub open spec fn parse_header_spec(s: Seq<char>) -> Option<(Seq<char>, Seq<char>)> {
    match first_colon(s) {
        None => None,
        Some(i) => {
            let k = trim_spec(s.take(i));
            let v = trim_spec(s.skip(i + 1));
            if k.len() > 0 && v.len() > 0 {
                Some((k, v))
            } else {
                None
            }
        },
    }
}

/// Parses one raw `"Key: Value"` header string into its trimmed key and
/// value; fails with `InvalidHeaderFormat` carrying the raw string.
pub fn parse_header(header_str: &str) -> (r: Result<(String, String), InputError>)
    ensures
        r is Ok <==> parse_header_spec(header_str@) is Some,
        r matches Ok(kv) ==> parse_header_spec(header_str@) == Some((kv.0@, kv.1@)),
        r matches Err(e) ==> e matches InputError::InvalidHeaderFormat(s) && s@ == header_str@,
{
    let n = header_str.unicode_len();
    let mut i: usize = 0;
    while i < n && header_str.get_char(i) != ':'
        invariant
            n == header_str@.len(),
            i <= n,
            forall|j: int| 0 <= j < i ==> header_str@[j] != ':',
        decreases n - i,
    {
        i = i + 1;
    }
    if i == n {
        proof {
            lemma_first_colon_none(header_str@);
        }
        return Err(InputError::InvalidHeaderFormat(String::from_str(header_str)));
    }
    proof {
        lemma_first_colon_at(header_str@, i as int);
    }
    let key_part = header_str.substring_char(0, i);
    let val_part = header_str.substring_char(i + 1, n);
    proof {
        assert(key_part@ =~= header_str@.take(i as int));
        assert(val_part@ =~= header_str@.skip(i as int + 1));
    }
    let key = trim_str(key_part);
    let val = trim_str(val_part);
    if key.unicode_len() == 0 || val.unicode_len() == 0 {
        return Err(InputError::InvalidHeaderFormat(String::from_str(header_str)));
    }
    Ok((String::from_str(key), String::from_str(val)))
}

/// The method an explicit method string that is no ASCII-cased spelling of
/// the known set resolves to: its Unicode uppercase mapping is matched
/// against the set, anything else falling back to GET.
pub open spec fn method_for_uppercased(u: Seq<char>) -> Method {
    if u == "GET"@ {
        Method::GET
    } else if u == "POST"@ {
        Method::POST
    } else if u == "PUT"@ {
        Method::PUT
    } else if u == "DELETE"@ {
        Method::DELETE
    } else if u == "PATCH"@ {
        Method::PATCH
    } else if u == "HEAD"@ {
        Method::HEAD
    } else if u == "OPTIONS"@ {
        Method::OPTIONS
    } else {
        Method::GET
    }
}

/// The method a request resolves to: an explicit method is matched
/// case-insensitively against the known set — an ASCII-cased spelling
/// directly, anything else through its Unicode uppercase mapping — and an
/// unrecognized one silently falls back to GET; with no explicit method,
/// POST when a body is present, else GET.
pub open spec fn method_for(m: Option<Seq<char>>, has_body: bool) -> Method {
    match m {
        Some(s) => {
            if seq_eq_nocase(s, "GET"@) {
                Method::GET
            } else if seq_eq_nocase(s, "POST"@) {
                Method::POST
            } else if seq_eq_nocase(s, "PUT"@) {
                Method::PUT
            } else if seq_eq_nocase(s, "DELETE"@) {
                Method::DELETE
            } else if seq_eq_nocase(s, "PATCH"@) {
                Method::PATCH
            } else if seq_eq_nocase(s, "HEAD"@) {
                Method::HEAD
            } else if seq_eq_nocase(s, "OPTIONS"@) {
                Method::OPTIONS
            } else {
                method_for_uppercased(upper_of(s))
            }
        },
        None => if has_body {
            Method::POST
        } else {
            Method::GET
        },
    }
}

/// Resolves the request method.
pub fn resolve_method(m: &Option<String>, has_body: bool) -> (r: Method)
    ensures
        r == method_for(m.deep_view(), has_body),
{
    match m {
        Some(s) => {
            if str_eq_nocase(s.as_str(), "GET") {
                Method::GET
            } else if str_eq_nocase(s.as_str(), "POST") {
                Method::POST
            } else if str_eq_nocase(s.as_str(), "PUT") {
                Method::PUT
            } else if str_eq_nocase(s.as_str(), "DELETE") {
                Method::DELETE
            } else if str_eq_nocase(s.as_str(), "PATCH") {
                Method::PATCH
            } else if str_eq_nocase(s.as_str(), "HEAD") {
                Method::HEAD
            } else if str_eq_nocase(s.as_str(), "OPTIONS") {
                Method::OPTIONS
            } else {
                let upper = to_uppercase_str(s.as_str());
                if str_eq_str(upper.as_str(), "GET") {
                    Method::GET
                } else if str_eq_str(upper.as_str(), "POST") {
                    Method::POST
                } else if str_eq_str(upper.as_str(), "PUT") {
                    Method::PUT
                } else if str_eq_str(upper.as_str(), "DELETE") {
                    Method::DELETE
                } else if str_eq_str(upper.as_str(), "PATCH") {
                    Method::PATCH
                } else if str_eq_str(upper.as_str(), "HEAD") {
                    Method::HEAD
                } else if str_eq_str(upper.as_str(), "OPTIONS") {
                    Method::OPTIONS
                } else {
                    Method::GET
                }
            }
        },
        None => if has_body {
            Method::POST
        } else {
            Method::GET
        },
    }
}

/// A raw proof request: the shape callers hand in.
pub struct WebProofRequest {
    pub url: String,
    pub host: Option<String>,
    pub notary: Option<String>,
    pub method: Option<String>,
    pub headers: Vec<String>,
    pub data: Option<String>,
    pub max_sent_data: Option<usize>,
    pub max_recv_data: Option<usize>,
}

/// Mathematical image of `WebProofRequest`.
pub struct WebProofRequestView {
    pub url: Seq<char>,
    pub host: Option<Seq<char>>,
    pub notary: Option<Seq<char>>,
    pub method: Option<Seq<char>>,
    pub headers: Seq<Seq<char>>,
    pub data: Option<Seq<char>>,
    pub max_sent_data: Option<usize>,
    pub max_recv_data: Option<usize>,
}

impl View for WebProofRequest {
    type V = WebProofRequestView;

    open spec fn view(&self) -> WebProofRequestView {
        WebProofRequestView {
            url: self.url@,
            host: self.host.deep_view(),
            notary: self.notary.deep_view(),
            method: self.method.deep_view(),
            headers: self.headers.deep_view(),
            data: self.data.deep_view(),
            max_sent_data: self.max_sent_data,
            max_recv_data: self.max_recv_data,
        }
    }
}

/// The notary URL a request names, or the default when it names none.
pub open spec fn notary_choice(r: WebProofRequestView) -> Seq<char> {
    match r.notary {
        Some(n) => n,
        None => "https://test-notary.vlayer.xyz/"@,
    }
}

/// Every raw header string parses.
pub open spec fn headers_ok(hs: Seq<Seq<char>>) -> bool {
    forall|i: int| 0 <= i < hs.len() ==> (#[trigger] parse_header_spec(hs[i])) is Some
}

/// The header error a request fails with: the raw string of the first header
/// that does not parse, every earlier one parsing.
pub open spec fn header_err_matches(hs: Seq<Seq<char>>, e: InputError) -> bool {
    e matches InputError::InvalidHeaderFormat(t) && exists|j: int|
        {
            &&& 0 <= j < hs.len()
            &&& (#[trigger] parse_header_spec(hs[j])) is None
            &&& t@ == hs[j]
            &&& forall|k: int| 0 <= k < j ==> (#[trigger] parse_header_spec(hs[k])) is Some
        }
}

/// A request passes validation when its proof URL is a valid `https` URL,
/// its chosen notary URL is a valid `http` or `https` URL, and every header
/// parses.
pub open spec fn request_ok(r: WebProofRequestView) -> bool {
    &&& url_ok(r.url, false)
    &&& url_ok(notary_choice(r), true)
    &&& headers_ok(r.headers)
}

/// The error a request fails conversion with: the proof URL's failure first,
/// else the chosen notary URL's, else the first failing header's.
pub open spec fn convert_err_matches(r: WebProofRequestView, e: InputError) -> bool {
    if !url_ok(r.url, false) {
        url_err_matches(r.url, false, e)
    } else if !url_ok(notary_choice(r), true) {
        url_err_matches(notary_choice(r), true, e)
    } else {
        header_err_matches(r.headers, e)
    }
}

/// The request target: path, then `?` and the query when there is one.
pub open spec fn uri_of(p: UrlPartsView) -> Seq<char> {
    p.path + (match p.query {
        Some(q) => "?"@ + q,
        None => Seq::<char>::empty(),
    })
}

/// The body bytes: the UTF-8 encoding of the data string, empty when absent.
pub open spec fn body_of(data: Option<Seq<char>>) -> Seq<u8> {
    match data {
        Some(d) => encode_utf8(d),
        None => Seq::<u8>::empty(),
    }
}

/// The notarization configuration a valid request converts to.
pub open spec fn params_of(r: WebProofRequestView) -> NotarizeParamsView
    recommends
        request_ok(r),
{
    let p = url_parse(r.url).unwrap();
    let np = url_parse(notary_choice(r)).unwrap();
    let nsch = scheme_of(np.scheme).unwrap();
    NotarizeParamsView {
        notary_config: notary_config_of(np, nsch),
        server_domain: p.host.unwrap(),
        server_host: match r.host {
            Some(h) => h,
            None => p.host.unwrap(),
        },
        server_port: if r.host is Some {
            443
        } else {
            resolved_port(p, Scheme::Https)
        },
        uri: uri_of(p),
        method: method_for(r.method, r.data is Some),
        headers: Seq::new(r.headers.len(), |i: int| parse_header_spec(r.headers[i]).unwrap()),
        body: body_of(r.data),
        max_sent_data: match r.max_sent_data {
            Some(m) => m,
            None => 4096,
        },
        max_recv_data: match r.max_recv_data {
            Some(m) => m,
            None => 16384,
        },
    }
}

/// Law: for a valid proof request without a host override, the derived
/// domain, dial host and dial port are the proof URL's own host and port, the
/// port defaulting to 443 when the URL names none.
pub proof fn lemma_proven_host_port(r: WebProofRequestView)
    requires
        request_ok(r),
        r.host is None,
    ensures
        params_of(r).server_domain == url_parse(r.url).unwrap().host.unwrap(),
        params_of(r).server_host == url_parse(r.url).unwrap().host.unwrap(),
        params_of(r).server_port == (match url_parse(r.url).unwrap().port {
            Some(p) => p,
            None => 443u16,
        }),
{
}

/// Law: a host override redirects only the dial target: the dial port is
/// forced to 443 and the certificate-identity domain stays the proof URL's
/// host, for every override value.
pub proof fn lemma_host_override(r: WebProofRequestView)
    requires
        request_ok(r),
        r.host is Some,
    ensures
        params_of(r).server_port == 443,
        params_of(r).server_domain == url_parse(r.url).unwrap().host.unwrap(),
        params_of(r).server_host == r.host.unwrap(),
{
}

/// Law: for a valid request, TLS towards the notary is enabled exactly when
/// the chosen notary URL's scheme is `https`.
pub proof fn lemma_notary_enable_tls(r: WebProofRequestView)
    requires
        request_ok(r),
    ensures
        params_of(r).notary_config.enable_tls <==> url_parse(notary_choice(r)).unwrap().scheme
            == "https"@,
{
    reveal_strlit("http");
    reveal_strlit("https");
}

/// Law: with no explicit method, the resolved method is GET without a body
/// and POST with one; an explicit method spelled like `PUT` in any casing
/// resolves to PUT whether or not a body is present.
pub proof fn lemma_method_resolution(m: Seq<char>, has_body: bool)
    ensures
        method_for(None, false) == Method::GET,
        method_for(None, true) == Method::POST,
        seq_eq_nocase(m, "PUT"@) ==> method_for(Some(m), has_body) == Method::PUT,
{
    reveal_strlit("GET");
    reveal_strlit("POST");
    reveal_strlit("PUT");
    if seq_eq_nocase(m, "PUT"@) {
        assert(m.len() == 3);
        assert(char_eq_nocase(m[0], "PUT"@[0]));
        assert(!seq_eq_nocase(m, "GET"@)) by {
            if seq_eq_nocase(m, "GET"@) {
                assert(char_eq_nocase(m[0], "GET"@[0]));
            }
        }
        assert(!seq_eq_nocase(m, "POST"@));
    }
}

/// Converts a raw request into validated notarization parameters.
///
/// The proof URL is checked first, then the notary URL, then the headers; the
/// first failure is returned. On success: the certificate identity
/// (`server_domain`) is always the proof URL's host; a host override redirects
/// only the dial target (`server_host`) and forces the dial port to 443, while
/// without one the URL's own resolved port is dialled; absent size caps
/// default to 4096 sent and 16384 received bytes.
pub fn convert_request_to_params(request: WebProofRequest) -> (r: Result<
    NotarizeParams,
    InputError,
>)
    ensures
        r is Ok <==> request_ok(request@),
        r matches Ok(p) ==> p@ == params_of(request@),
        r matches Err(e) ==> convert_err_matches(request@, e),
{
    let v = match try_from_url(request.url.as_str(), false) {
        Ok(v) => v,
        Err(e) => {
            return Err(e);
        },
    };
    let server_domain = v.host.clone();
    let server_host: String = match &request.host {
        Some(h) => h.clone(),
        None => v.host.clone(),
    };
    let server_port: u16 = if request.host.is_some() {
        443
    } else {
        v.port
    };
    let max_sent_data: usize = match request.max_sent_data {
        Some(m) => m,
        None => 4096,
    };
    let max_recv_data: usize = match request.max_recv_data {
        Some(m) => m,
        None => 16384,
    };
    let method = resolve_method(&request.method, request.data.is_some());
    let notary_parsed = match &request.notary {
        Some(n) => parse_notary_url(n.as_str()),
        None => parse_notary_url("https://test-notary.vlayer.xyz/"),
    };
    let notary_config = match notary_parsed {
        Ok(c) => c,
        Err(e) => {
            return Err(e);
        },
    };
    let mut uri = v.parts.path.clone();
    match &v.parts.query {
        Some(q) => {
            uri.append("?");
            uri.append(q.as_str());
        },
        None => {
            proof {
                assert(uri@ =~= uri_of(v.parts@));
            }
        },
    }
    let mut headers: Vec<(String, String)> = Vec::new();
    let mut i: usize = 0;
    while i < request.headers.len()
        invariant
            i <= request.headers@.len(),
            headers@.len() == i as int,
            url_ok(request@.url, false),
            url_ok(notary_choice(request@), true),
            forall|j: int|
                0 <= j < i ==> (#[trigger] parse_header_spec(request.headers@[j]@)) == Some(
                    (headers@[j].0@, headers@[j].1@),
                ),
        decreases request.headers@.len() - i,
    {
        let kv = match parse_header(request.headers[i].as_str()) {
            Ok(kv) => kv,
            Err(e) => {
                proof {
                    assert(parse_header_spec(request@.headers[i as int]) is None);
                    assert forall|k: int| 0 <= k < i implies (#[trigger] parse_header_spec(
                        request@.headers[k],
                    )) is Some by {
                        assert(parse_header_spec(request.headers@[k]@) is Some);
                    }
                    assert(header_err_matches(request@.headers, e));
                }
                return Err(e);
            },
        };
        headers.push(kv);
        i = i + 1;
    }
    let body: Vec<u8> = match &request.data {
        Some(d) => d.as_str().as_bytes_vec(),
        None => Vec::new(),
    };
    let built = NotarizeParamsBuilder::default().notary_config(notary_config).server_domain(
        server_domain,
    ).server_host(server_host).server_port(server_port).uri(uri).method(method).headers(
        headers,
    ).body(body).max_sent_data(max_sent_data).max_recv_data(max_recv_data).build();
    match built {
        Ok(p) => {
            proof {
                assert(p@.headers =~= params_of(request@).headers);
                assert(p@.uri =~= params_of(request@).uri);
                assert(p@ == params_of(request@));
            }
            Ok(p)
        },
        Err(e) => Err(InputError::NotarizeParams(e)),
    }
}

} // verus!
