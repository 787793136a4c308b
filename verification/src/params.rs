//! Validated notarization configuration and the builders that enforce its
//! required-field invariants: a builder validates, then constructs; it never
//! yields a partially initialized configuration.
use vstd::prelude::*;
use vstd::string::StringExecFns;

use crate::errors::NotaryConfigBuilderError;
use crate::errors::NotarizeParamsBuilderError;

verus! {

/// HTTP method of the proven request.
#[derive(Clone, Copy, PartialEq, Eq, Structural, Debug)]
pub enum Method {
    GET,
    POST,
    PUT,
    DELETE,
    PATCH,
    HEAD,
    OPTIONS,
}

/// How to reach the notary: derived from the notary URL.
#[derive(Debug)]
pub struct NotaryConfig {
    pub host: String,
    pub port: u16,
    pub path_prefix: String,
    pub enable_tls: bool,
}

/// Mathematical image of `NotaryConfig`.
pub struct NotaryConfigView {
    pub host: Seq<char>,
    pub port: u16,
    pub path_prefix: Seq<char>,
    pub enable_tls: bool,
}

impl View for NotaryConfig {
    type V = NotaryConfigView;

    open spec fn view(&self) -> NotaryConfigView {
        NotaryConfigView {
            host: self.host@,
            port: self.port,
            path_prefix: self.path_prefix@,
            enable_tls: self.enable_tls,
        }
    }
}

/// Builder for `NotaryConfig`; every field is required.
pub struct NotaryConfigBuilder {
    pub host: Option<String>,
    pub port: Option<u16>,
    pub path_prefix: Option<String>,
    pub enable_tls: Option<bool>,
}

impl Default for NotaryConfigBuilder {
    /// A builder with no field set.
    fn default() -> (r: Self)
        ensures
            r.host is None,
            r.port is None,
            r.path_prefix is None,
            r.enable_tls is None,
    {
        NotaryConfigBuilder { host: None, port: None, path_prefix: None, enable_tls: None }
    }
}

impl NotaryConfigBuilder {
    /// Whether every required field has been set.
    pub open spec fn complete(self) -> bool {
        self.host is Some && self.port is Some && self.path_prefix is Some
            && self.enable_tls is Some
    }

    /// The name of the first field still unset.
    pub open spec fn first_missing(self) -> Seq<char> {
        if self.host is None {
            "host"@
        } else if self.port is None {
            "port"@
        } else if self.path_prefix is None {
            "path_prefix"@
        } else {
            "enable_tls"@
        }
    }

    /// Sets the notary host.
    pub fn host(self, host: String) -> (r: Self)
        ensures
            r == (NotaryConfigBuilder { host: Some(host), ..self }),
    {
        NotaryConfigBuilder { host: Some(host), ..self }
    }

    /// Sets the notary port.
    pub fn port(self, port: u16) -> (r: Self)
        ensures
            r == (NotaryConfigBuilder { port: Some(port), ..self }),
    {
        NotaryConfigBuilder { port: Some(port), ..self }
    }

    /// Sets the path prefix under which the notary is served.
    pub fn path_prefix(self, path_prefix: String) -> (r: Self)
        ensures
            r == (NotaryConfigBuilder { path_prefix: Some(path_prefix), ..self }),
    {
        NotaryConfigBuilder { path_prefix: Some(path_prefix), ..self }
    }

    /// Sets whether the notary is reached over TLS.
    pub fn enable_tls(self, enable_tls: bool) -> (r: Self)
        ensures
            r == (NotaryConfigBuilder { enable_tls: Some(enable_tls), ..self }),
    {
        NotaryConfigBuilder { enable_tls: Some(enable_tls), ..self }
    }

    /// Constructs the config when every required field is set, and otherwise
    /// reports the first field that is not.
    pub fn build(self) -> (r: Result<NotaryConfig, NotaryConfigBuilderError>)
        ensures
            r is Ok <==> self.complete(),
            r matches Ok(c) ==> {
                &&& Some(c.host) == self.host
                &&& Some(c.port) == self.port
                &&& Some(c.path_prefix) == self.path_prefix
                &&& Some(c.enable_tls) == self.enable_tls
            },
            r matches Err(e) ==> e matches NotaryConfigBuilderError::UninitializedField(f)
                && f@ == self.first_missing(),
    {
        let NotaryConfigBuilder { host, port, path_prefix, enable_tls } = self;
        let host = match host {
            Some(h) => h,
            None => {
                return Err(
                    NotaryConfigBuilderError::UninitializedField(String::from_str("host")),
                );
            },
        };
        let port = match port {
            Some(p) => p,
            None => {
                return Err(
                    NotaryConfigBuilderError::UninitializedField(String::from_str("port")),
                );
            },
        };
        let path_prefix = match path_prefix {
            Some(p) => p,
            None => {
                return Err(
                    NotaryConfigBuilderError::UninitializedField(String::from_str("path_prefix")),
                );
            },
        };
        let enable_tls = match enable_tls {
            Some(t) => t,
            None => {
                return Err(
                    NotaryConfigBuilderError::UninitializedField(String::from_str("enable_tls")),
                );
            },
        };
        Ok(NotaryConfig { host, port, path_prefix, enable_tls })
    }
}

/// Everything the notarize capability needs for one proven exchange.
///
/// `server_domain` is always the proof URL's host and names the certificate
/// identity; `server_host` is the dial target, which an override may redirect.
#[derive(Debug)]
pub struct NotarizeParams {
    pub notary_config: NotaryConfig,
    pub server_domain: String,
    pub server_host: String,
    pub server_port: u16,
    pub uri: String,
    pub method: Method,
    pub headers: Vec<(String, String)>,
    pub body: Vec<u8>,
    pub max_sent_data: usize,
    pub max_recv_data: usize,
}

/// Mathematical image of `NotarizeParams`.
pub struct NotarizeParamsView {
    pub notary_config: NotaryConfigView,
    pub server_domain: Seq<char>,
    pub server_host: Seq<char>,
    pub server_port: u16,
    pub uri: Seq<char>,
    pub method: Method,
    pub headers: Seq<(Seq<char>, Seq<char>)>,
    pub body: Seq<u8>,
    pub max_sent_data: usize,
    pub max_recv_data: usize,
}

impl View for NotarizeParams {
    type V = NotarizeParamsView;

    open spec fn view(&self) -> NotarizeParamsView {
        NotarizeParamsView {
            notary_config: self.notary_config@,
            server_domain: self.server_domain@,
            server_host: self.server_host@,
            server_port: self.server_port,
            uri: self.uri@,
            method: self.method,
            headers: Seq::new(
                self.headers@.len(),
                |i: int| (self.headers@[i].0@, self.headers@[i].1@),
            ),
            body: self.body@,
            max_sent_data: self.max_sent_data,
            max_recv_data: self.max_recv_data,
        }
    }
}

/// Builder for `NotarizeParams`; every field is required.
pub struct NotarizeParamsBuilder {
    pub notary_config: Option<NotaryConfig>,
    pub server_domain: Option<String>,
    pub server_host: Option<String>,
    pub server_port: Option<u16>,
    pub uri: Option<String>,
    pub method: Option<Method>,
    pub headers: Option<Vec<(String, String)>>,
    pub body: Option<Vec<u8>>,
    pub max_sent_data: Option<usize>,
    pub max_recv_data: Option<usize>,
}

impl Default for NotarizeParamsBuilder {
    /// A builder with no field set.
    fn default() -> (r: Self)
        ensures
            r.notary_config is None,
            r.server_domain is None,
            r.server_host is None,
            r.server_port is None,
            r.uri is None,
            r.method is None,
            r.headers is None,
            r.body is None,
            r.max_sent_data is None,
            r.max_recv_data is None,
    {
        NotarizeParamsBuilder {
            notary_config: None,
            server_domain: None,
            server_host: None,
            server_port: None,
            uri: None,
            method: None,
            headers: None,
            body: None,
            max_sent_data: None,
            max_recv_data: None,
        }
    }
}

impl NotarizeParamsBuilder {
    /// Whether every required field has been set.
    pub open spec fn complete(self) -> bool {
        &&& self.notary_config is Some
        &&& self.server_domain is Some
        &&& self.server_host is Some
        &&& self.server_port is Some
        &&& self.uri is Some
        &&& self.method is Some
        &&& self.headers is Some
        &&& self.body is Some
        &&& self.max_sent_data is Some
        &&& self.max_recv_data is Some
    }

    /// The name of the first field still unset.
    pub open spec fn first_missing(self) -> Seq<char> {
        if self.notary_config is None {
            "notary_config"@
        } else if self.server_domain is None {
            "server_domain"@
        } else if self.server_host is None {
            "server_host"@
        } else if self.server_port is None {
            "server_port"@
        } else if self.uri is None {
            "uri"@
        } else if self.method is None {
            "method"@
        } else if self.headers is None {
            "headers"@
        } else if self.body is None {
            "body"@
        } else if self.max_sent_data is None {
            "max_sent_data"@
        } else {
            "max_recv_data"@
        }
    }

    /// Sets the notary configuration.
    pub fn notary_config(self, notary_config: NotaryConfig) -> (r: Self)
        ensures
            r == (NotarizeParamsBuilder { notary_config: Some(notary_config), ..self }),
    {
        NotarizeParamsBuilder { notary_config: Some(notary_config), ..self }
    }

    /// Sets the certificate-identity domain.
    pub fn server_domain(self, server_domain: String) -> (r: Self)
        ensures
            r == (NotarizeParamsBuilder { server_domain: Some(server_domain), ..self }),
    {
        NotarizeParamsBuilder { server_domain: Some(server_domain), ..self }
    }

    /// Sets the dial target.
    pub fn server_host(self, server_host: String) -> (r: Self)
        ensures
            r == (NotarizeParamsBuilder { server_host: Some(server_host), ..self }),
    {
        NotarizeParamsBuilder { server_host: Some(server_host), ..self }
    }

    /// Sets the dial port.
    pub fn server_port(self, server_port: u16) -> (r: Self)
        ensures
            r == (NotarizeParamsBuilder { server_port: Some(server_port), ..self }),
    {
        NotarizeParamsBuilder { server_port: Some(server_port), ..self }
    }

    /// Sets the request target (path and query).
    pub fn uri(self, uri: String) -> (r: Self)
        ensures
            r == (NotarizeParamsBuilder { uri: Some(uri), ..self }),
    {
        NotarizeParamsBuilder { uri: Some(uri), ..self }
    }

    /// Sets the HTTP method.
    pub fn method(self, method: Method) -> (r: Self)
        ensures
            r == (NotarizeParamsBuilder { method: Some(method), ..self }),
    {
        NotarizeParamsBuilder { method: Some(method), ..self }
    }

    /// Sets the validated headers, order preserved.
    pub fn headers(self, headers: Vec<(String, String)>) -> (r: Self)
        ensures
            r == (NotarizeParamsBuilder { headers: Some(headers), ..self }),
    {
        NotarizeParamsBuilder { headers: Some(headers), ..self }
    }

    /// Sets the request body bytes.
    pub fn body(self, body: Vec<u8>) -> (r: Self)
        ensures
            r == (NotarizeParamsBuilder { body: Some(body), ..self }),
    {
        NotarizeParamsBuilder { body: Some(body), ..self }
    }

    /// Sets the cap on sent transcript bytes.
    pub fn max_sent_data(self, max_sent_data: usize) -> (r: Self)
        ensures
            r == (NotarizeParamsBuilder { max_sent_data: Some(max_sent_data), ..self }),
    {
        NotarizeParamsBuilder { max_sent_data: Some(max_sent_data), ..self }
    }

    /// Sets the cap on received transcript bytes.
    pub fn max_recv_data(self, max_recv_data: usize) -> (r: Self)
        ensures
            r == (NotarizeParamsBuilder { max_recv_data: Some(max_recv_data), ..self }),
    {
        NotarizeParamsBuilder { max_recv_data: Some(max_recv_data), ..self }
    }

    /// Constructs the params when every required field is set, and otherwise
    /// reports the first field that is not.
    pub fn build(self) -> (r: Result<NotarizeParams, NotarizeParamsBuilderError>)
        ensures
            r is Ok <==> self.complete(),
            r matches Ok(p) ==> {
                &&& Some(p.notary_config) == self.notary_config
                &&& Some(p.server_domain) == self.server_domain
                &&& Some(p.server_host) == self.server_host
                &&& Some(p.server_port) == self.server_port
                &&& Some(p.uri) == self.uri
                &&& Some(p.method) == self.method
                &&& Some(p.headers) == self.headers
                &&& Some(p.body) == self.body
                &&& Some(p.max_sent_data) == self.max_sent_data
                &&& Some(p.max_recv_data) == self.max_recv_data
            },
            r matches Err(e) ==> e matches NotarizeParamsBuilderError::UninitializedField(f)
                && f@ == self.first_missing(),
    {
        if self.notary_config.is_none() {
            return Err(
                NotarizeParamsBuilderError::UninitializedField(String::from_str("notary_config")),
            );
        }
        if self.server_domain.is_none() {
            return Err(
                NotarizeParamsBuilderError::UninitializedField(String::from_str("server_domain")),
            );
        }
        if self.server_host.is_none() {
            return Err(
                NotarizeParamsBuilderError::UninitializedField(String::from_str("server_host")),
            );
        }
        if self.server_port.is_none() {
            return Err(
                NotarizeParamsBuilderError::UninitializedField(String::from_str("server_port")),
            );
        }
        if self.uri.is_none() {
            return Err(NotarizeParamsBuilderError::UninitializedField(String::from_str("uri")));
        }
        if self.method.is_none() {
            return Err(NotarizeParamsBuilderError::UninitializedField(String::from_str("method")));
        }
        if self.headers.is_none() {
            return Err(
                NotarizeParamsBuilderError::UninitializedField(String::from_str("headers")),
            );
        }
        if self.body.is_none() {
            return Err(NotarizeParamsBuilderError::UninitializedField(String::from_str("body")));
        }
        if self.max_sent_data.is_none() {
            return Err(
                NotarizeParamsBuilderError::UninitializedField(String::from_str("max_sent_data")),
            );
        }
        if self.max_recv_data.is_none() {
            return Err(
                NotarizeParamsBuilderError::UninitializedField(String::from_str("max_recv_data")),
            );
        }
        let NotarizeParamsBuilder {
            notary_config,
            server_domain,
            server_host,
            server_port,
            uri,
            method,
            headers,
            body,
            max_sent_data,
            max_recv_data,
        } = self;
        Ok(
            NotarizeParams {
                notary_config: notary_config.unwrap(),
                server_domain: server_domain.unwrap(),
                server_host: server_host.unwrap(),
                server_port: server_port.unwrap(),
                uri: uri.unwrap(),
                method: method.unwrap(),
                headers: headers.unwrap(),
                body: body.unwrap(),
                max_sent_data: max_sent_data.unwrap(),
                max_recv_data: max_recv_data.unwrap(),
            },
        )
    }
}

} // verus!
