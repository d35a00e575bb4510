//! Shared pieces of every client: configuration, the HTTP agent, status checks, error texts.
use vstd::prelude::*;
use vstd::string::StringExecFns;
use vstd::utf8::*;
use crate::error::{ProviderError, Result};
use crate::text::{decimal, push_decimal};
use core::time::Duration;

verus! {

/// The HTTP agent of `ureq`, carried unopened by the providers.
#[verifier::external_type_specification]
#[verifier::external_body]
pub struct ExAgent(ureq::Agent);

/// The duration that `Duration::from_secs` makes of a number of whole seconds.
pub uninterp spec fn duration_from_secs(secs: u64) -> Duration;

/// `Duration::from_secs` is a function of its argument alone.
pub assume_specification[ Duration::from_secs ](secs: u64) -> (d: Duration)
    ensures
        d == duration_from_secs(secs),
;

/// Settings of the HTTP agent.
pub struct ClientConfig {
    pub timeout: Duration,
}

/// The timeout, in seconds, of an agent made with the default configuration.
pub open spec fn default_timeout_secs() -> u64 {
    120
}

impl Default for ClientConfig {
    fn default() -> (c: Self)
        ensures
            c.timeout == duration_from_secs(default_timeout_secs()),
    {
        ClientConfig { timeout: Duration::from_secs(120) }
    }
}

/// The global timeout held in an agent's configuration, as `ureq::Agent::config` and
/// `ureq::config::Config::timeouts` read it (its field `global`).
pub uninterp spec fn agent_global_timeout(agent: ureq::Agent) -> Option<Duration>;

/// Whether an agent turns responses of status 400 and above into errors, as
/// `ureq::Agent::config` and `ureq::config::Config::http_status_as_error` read it.
pub uninterp spec fn agent_status_as_error(agent: ureq::Agent) -> bool;

/// Builds a `ureq` agent whose requests time out after `config.timeout` and which hands back
/// responses of every HTTP status instead of turning 4xx and 5xx into errors.
///
/// Calls `ureq::Agent::config_builder`, `ConfigBuilder::timeout_global`,
/// `ConfigBuilder::http_status_as_error`, `ConfigBuilder::build` and
/// `ureq::Agent::new_with_config` in one chain: `ConfigBuilder` takes a parameter bounded by
/// a trait private to `ureq`, so its type cannot be named here. The contract claims what
/// `ureq`'s source shows: `timeout_global(Some(d))` stores `Some(d)` as the global timeout,
/// `http_status_as_error(false)` stores `false`, and `new_with_config` keeps the
/// configuration that `Agent::config` hands back. Nothing else is stated of the agent.
#[verifier::external_body]
pub fn create_agent(config: &ClientConfig) -> (r: ureq::Agent)
    ensures
        agent_global_timeout(r) == Some(config.timeout),
        !agent_status_as_error(r),
{
    let ureq_config = ureq::Agent::config_builder()
        .timeout_global(Some(config.timeout))
        .http_status_as_error(false)
        .build();
    ureq::Agent::new_with_config(ureq_config)
}

/// An agent with the default configuration: a global timeout of 120 seconds, and
/// responses of every status handed back.
pub fn create_default_agent() -> (r: ureq::Agent)
    ensures
        agent_global_timeout(r) == Some(duration_from_secs(default_timeout_secs())),
        !agent_status_as_error(r),
{
    create_agent(&ClientConfig::default())
}

/// Turns an HTTP status of 400 or above into an API error that carries the body.
pub fn check_status(status: u16, body: &str) -> (r: Result<()>)
    ensures
        r is Ok <==> status < 400,
        r matches Err(e) ==> e.is_api(status, body@, None),
{
    if status >= 400 {
        Err(ProviderError::api(status, body.to_owned()))
    } else {
        Ok(())
    }
}

/// The marker appended to a body that was cut short.
pub open spec fn truncation_marker() -> Seq<char> {
    "...[truncated]"@
}

/// A body of `body` characters can be cut after `limit` bytes of its UTF-8 encoding
/// (it is not longer, or a character starts there).
pub open spec fn can_truncate(body: Seq<char>, limit: int) -> bool {
    encode_utf8(body).len() <= limit || is_char_boundary(encode_utf8(body), limit)
}

/// `r` is `body` cut after `limit` bytes of its UTF-8 encoding, followed by the marker;
/// or `body` itself, if it is not longer than that.
pub open spec fn is_truncation(body: Seq<char>, limit: int, r: Seq<char>) -> bool {
    if encode_utf8(body).len() <= limit {
        r == body
    } else {
        exists|k: int|
            0 <= k <= body.len() && #[trigger] encode_utf8(body.take(k)).len() == limit && r
                == body.take(k) + truncation_marker()
    }
}

/// Cuts `body` after `limit` bytes and marks the cut; a body of at most `limit` bytes
/// comes back unchanged.
pub fn truncate_body(body: &str, limit: usize) -> (r: String)
    requires
        can_truncate(body@, limit as int),
    ensures
        is_truncation(body@, limit as int, r@),
{
    if body.as_bytes().len() <= limit {
        body.to_owned()
    } else {
        let (head, _tail) = body.split_at(limit);
        let r = String::from_str(head).concat("...[truncated]");
        proof {
            // The bytes before the cut decode to `head`, which the whole body begins with.
            let bytes = encode_utf8(body@);
            encode_utf8_valid_utf8(body@);
            encode_utf8_decode_utf8(body@);
            encode_utf8_decode_utf8(head@);
            decode_utf8_split(bytes, limit as int);
            let k = head@.len() as int;
            assert(encode_utf8(head@) =~= bytes.subrange(0, limit as int));
            assert(body@.take(k) =~= head@);
        }
        r
    }
}

/// What the HTTP client reported when a request failed, as plain text.
pub enum HttpError {
    /// A timeout; the text names which one.
    Timeout(String),
    /// An I/O error; the text describes it.
    Io(String),
    /// An HTTP status that the agent reported as an error.
    StatusCode(u16),
    /// Any other failure; the text describes it.
    Other(String),
}

/// The message `format_ureq_error` gives for `err`.
pub open spec fn http_error_text(err: HttpError) -> Seq<char> {
    match err {
        HttpError::Timeout(t) => "timeout: "@ + t@,
        HttpError::Io(e) => "IO error: "@ + e@,
        HttpError::StatusCode(code) => "HTTP status error: "@ + decimal(code as nat),
        HttpError::Other(s) => s@,
    }
}

/// A one-line description of a failed request.
pub fn format_ureq_error(err: &HttpError) -> (r: String)
    ensures
        r@ == http_error_text(*err),
{
    match err {
        HttpError::Timeout(t) => String::from_str("timeout: ").concat(t.as_str()),
        HttpError::Io(e) => String::from_str("IO error: ").concat(e.as_str()),
        HttpError::StatusCode(code) => {
            let mut s = String::from_str("HTTP status error: ");
            push_decimal(&mut s, *code as u64);
            s
        },
        HttpError::Other(s) => s.clone(),
    }
}

} // verus!
