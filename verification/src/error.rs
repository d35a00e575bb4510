//! The error type shared by all providers.
use vstd::prelude::*;
use vstd::string::StringExecFns;
use crate::text::{decimal, push_decimal};

verus! {

/// The JSON error of `serde_json`, carried unopened as the source of a parse error.
#[verifier::external_type_specification]
#[verifier::external_body]
pub struct ExSerdeJsonError(serde_json::Error);

/// What went wrong while talking to a provider.
#[derive(Debug)]
pub enum ProviderError {
    /// The client is misconfigured (a missing environment variable, an unsupported input).
    Config { message: String, env_var: Option<String> },
    /// The request could not be sent, or the reply could not be read.
    Network { message: String },
    /// The service answered with an error.
    Api { status: u16, message: String, error_type: Option<String> },
    /// The reply could not be understood.
    Parse { message: String, source: Option<serde_json::Error> },
}

/// The result type of every provider operation.
pub type Result<T> = std::result::Result<T, ProviderError>;

impl ProviderError {
    /// This is a configuration error with the given message and variable name.
    pub open spec fn is_config(self, message: Seq<char>, env_var: Option<Seq<char>>) -> bool {
        match self {
            ProviderError::Config { message: m, env_var: v } => m@ == message && v.deep_view()
                == env_var,
            _ => false,
        }
    }

    /// This is a network error with the given message.
    pub open spec fn is_network(self, message: Seq<char>) -> bool {
        match self {
            ProviderError::Network { message: m } => m@ == message,
            _ => false,
        }
    }

    /// This is an API error with the given status, message and error type.
    pub open spec fn is_api(self, status: u16, message: Seq<char>, error_type: Option<Seq<char>>) -> bool {
        match self {
            ProviderError::Api { status: s, message: m, error_type: t } => s == status && m@
                == message && t.deep_view() == error_type,
            _ => false,
        }
    }

    /// This is a parse error with the given message (whatever its source).
    pub open spec fn is_parse(self, message: Seq<char>) -> bool {
        match self {
            ProviderError::Parse { message: m, .. } => m@ == message,
            _ => false,
        }
    }

    /// The text that describes this error: its kind, and its message.
    pub open spec fn text(self) -> Seq<char> {
        match self {
            ProviderError::Config { message, .. } => "configuration error: "@ + message@,
            ProviderError::Network { message } => "network error: "@ + message@,
            ProviderError::Api { status, message, .. } => "API error (HTTP "@ + decimal(
                status as nat,
            ) + "): "@ + message@,
            ProviderError::Parse { message, .. } => "parse error: "@ + message@,
        }
    }

    /// The text that describes this error, as it is displayed.
    pub fn to_string(&self) -> (r: String)
        ensures
            r@ == self.text(),
    {
        match self {
            ProviderError::Config { message, .. } => String::from_str("configuration error: ")
                .concat(message.as_str()),
            ProviderError::Network { message } => String::from_str("network error: ").concat(
                message.as_str(),
            ),
            ProviderError::Api { status, message, .. } => {
                let mut s = String::from_str("API error (HTTP ");
                push_decimal(&mut s, *status as u64);
                s.concat("): ").concat(message.as_str())
            },
            ProviderError::Parse { message, .. } => String::from_str("parse error: ").concat(
                message.as_str(),
            ),
        }
    }

    /// The configuration error for an environment variable that is not set.
    pub fn missing_env_var(name: &str) -> (e: Self)
        ensures
            e.is_config(name@ + " environment variable not set"@, Some(name@)),
    {
        let message = String::from_str(name).concat(" environment variable not set");
        ProviderError::Config { message, env_var: Some(String::from_str(name)) }
    }

    /// A network error with the given message.
    pub fn network(message: String) -> (e: Self)
        ensures
            e.is_network(message@),
    {
        ProviderError::Network { message }
    }

    /// The network error for a request that could not be sent; `detail` says why.
    pub fn request_failed(detail: &str) -> (e: Self)
        ensures
            e.is_network("request failed: "@ + detail@),
    {
        ProviderError::network(String::from_str("request failed: ").concat(detail))
    }

    /// The network error for a reply that could not be read; `detail` says why.
    pub fn read_failed(detail: &str) -> (e: Self)
        ensures
            e.is_network("failed to read response: "@ + detail@),
    {
        ProviderError::network(String::from_str("failed to read response: ").concat(detail))
    }

    /// An error reported by the service, with its HTTP status and no error type.
    pub fn api(status: u16, message: String) -> (e: Self)
        ensures
            e.is_api(status, message@, None),
    {
        ProviderError::Api { status, message, error_type: None }
    }

    /// An error reported by the service, with its HTTP status and error type.
    pub fn api_with_type(status: u16, message: String, error_type: String) -> (e: Self)
        ensures
            e.is_api(status, message@, Some(error_type@)),
    {
        ProviderError::Api { status, message, error_type: Some(error_type) }
    }

    /// A parse error with the given message and no source.
    pub fn parse(message: String) -> (e: Self)
        ensures
            e.is_parse(message@),
            e matches ProviderError::Parse { source, .. } && source is None,
    {
        ProviderError::Parse { message, source: None }
    }

    /// A parse error with the given message, caused by a JSON error.
    pub fn parse_with_source(message: String, source: serde_json::Error) -> (e: Self)
        ensures
            e.is_parse(message@),
            e matches ProviderError::Parse { source: s, .. } && s == Some(source),
    {
        ProviderError::Parse { message, source: Some(source) }
    }

    /// The parse error for a reply body that is not the JSON the client expects;
    /// `detail` is what the JSON decoder reported.
    pub fn undecodable_response(detail: &str, body: &str) -> (e: Self)
        ensures
            e.is_parse("failed to parse response: "@ + detail@ + ". Body: "@ + body@),
            e matches ProviderError::Parse { source, .. } && source is None,
    {
        let message = String::from_str("failed to parse response: ").concat(detail).concat(
            ". Body: ",
        ).concat(body);
        ProviderError::parse(message)
    }
}

} // verus!
