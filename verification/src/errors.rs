//! Typed validation errors. Every failure of request validation is one of
//! these; none is silently discarded.
use vstd::prelude::*;
use vstd::string::StringExecFns;

verus! {

/// Failure of the notary-config builder: a required field was never set, or a
/// field value was rejected.
#[derive(Debug)]
pub enum NotaryConfigBuilderError {
    UninitializedField(String),
    ValidationError(String),
}

impl NotaryConfigBuilderError {
    /// The rendered error text.
    pub open spec fn message_spec(&self) -> Seq<char> {
        match self {
            NotaryConfigBuilderError::UninitializedField(f) => "uninitialized field: "@ + f@,
            NotaryConfigBuilderError::ValidationError(m) => "invalid value: "@ + m@,
        }
    }

    /// Renders the error as text.
    pub fn message(&self) -> (r: String)
        ensures
            r@ == self.message_spec(),
    {
        match self {
            NotaryConfigBuilderError::UninitializedField(f) => {
                let mut r = String::from_str("uninitialized field: ");
                r.append(f.as_str());
                r
            },
            NotaryConfigBuilderError::ValidationError(m) => {
                let mut r = String::from_str("invalid value: ");
                r.append(m.as_str());
                r
            },
        }
    }
}

/// Failure of the notarize-params builder: a required field was never set, or
/// a field value was rejected.
#[derive(Debug)]
pub enum NotarizeParamsBuilderError {
    UninitializedField(String),
    ValidationError(String),
}

impl NotarizeParamsBuilderError {
    /// The rendered error text.
    pub open spec fn message_spec(&self) -> Seq<char> {
        match self {
            NotarizeParamsBuilderError::UninitializedField(f) => "uninitialized field: "@ + f@,
            NotarizeParamsBuilderError::ValidationError(m) => "invalid value: "@ + m@,
        }
    }

    /// Renders the error as text.
    pub fn message(&self) -> (r: String)
        ensures
            r@ == self.message_spec(),
    {
        match self {
            NotarizeParamsBuilderError::UninitializedField(f) => {
                let mut r = String::from_str("uninitialized field: ");
                r.append(f.as_str());
                r
            },
            NotarizeParamsBuilderError::ValidationError(m) => {
                let mut r = String::from_str("invalid value: ");
                r.append(m.as_str());
                r
            },
        }
    }
}

/// Why a proof request was rejected. Each variant carries the offending
/// input, so the rendered message references it.
#[derive(Debug)]
pub enum InputError {
    /// The URL has no host; carries the whole URL string.
    MissingUrlHost(String),
    /// The string is not an absolute URL; carries it.
    InvalidUrlFormat(String),
    /// The URL's scheme is outside the allowed set; carries the scheme.
    InvalidUrlProtocol(String),
    /// A raw header has no colon, or an empty key or value; carries it.
    InvalidHeaderFormat(String),
    /// The notarize-params builder failed; preserves its error.
    NotarizeParams(NotarizeParamsBuilderError),
    /// The notary-config builder failed; preserves its error.
    NotaryConfig(NotaryConfigBuilderError),
}

impl InputError {
    /// The rendered error text.
    pub open spec fn message_spec(&self) -> Seq<char> {
        match self {
            InputError::MissingUrlHost(s) => "URL has no host: "@ + s@,
            InputError::InvalidUrlFormat(s) => "Invalid URL format: "@ + s@,
            InputError::InvalidUrlProtocol(s) => "Invalid URL protocol: "@ + s@,
            InputError::InvalidHeaderFormat(s) => "Invalid header format: "@ + s@,
            InputError::NotarizeParams(e) => "Invalid notarize params: "@ + e.message_spec(),
            InputError::NotaryConfig(e) => "Invalid notary config: "@ + e.message_spec(),
        }
    }

    /// Renders the error as text.
    pub fn message(&self) -> (r: String)
        ensures
            r@ == self.message_spec(),
    {
        match self {
            InputError::MissingUrlHost(s) => {
                let mut r = String::from_str("URL has no host: ");
                r.append(s.as_str());
                r
            },
            InputError::InvalidUrlFormat(s) => {
                let mut r = String::from_str("Invalid URL format: ");
                r.append(s.as_str());
                r
            },
            InputError::InvalidUrlProtocol(s) => {
                let mut r = String::from_str("Invalid URL protocol: ");
                r.append(s.as_str());
                r
            },
            InputError::InvalidHeaderFormat(s) => {
                let mut r = String::from_str("Invalid header format: ");
                r.append(s.as_str());
                r
            },
            InputError::NotarizeParams(e) => {
                let mut r = String::from_str("Invalid notarize params: ");
                let m = e.message();
                r.append(m.as_str());
                r
            },
            InputError::NotaryConfig(e) => {
                let mut r = String::from_str("Invalid notary config: ");
                let m = e.message();
                r.append(m.as_str());
                r
            },
        }
    }
}

} // verus!
