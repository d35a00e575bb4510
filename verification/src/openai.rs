//! OpenAI Responses API client: the request it sends and how it reads the reply.
use vstd::prelude::*;
use vstd::string::StringExecFns;
use crate::anthropic::min_tokens;
use crate::client::{
    agent_global_timeout, agent_status_as_error,
    can_truncate, create_agent, is_truncation, default_timeout_secs, duration_from_secs, truncate_body,
    ClientConfig,
};
use crate::error::{ProviderError, Result};
use crate::text::{
    blank_iff_every_char_whitespace, char_is_whitespace, debug_optional_string,
    debug_text_of_optional_string, is_blank, str_eq, str_is_blank,
};
use core::time::Duration;

verus! {

/// A JSON value of `serde_json`, carried unopened (a JSON schema).
#[verifier::external_type_specification]
#[verifier::external_body]
pub struct ExJsonValue(serde_json::Value);

/// The `Clone` impl of `serde_json::Value` (derived in `serde_json`) copies the value.
pub assume_specification[ <serde_json::Value as Clone>::clone ](v: &serde_json::Value) -> (r: serde_json::Value)
    ensures
        r == *v,
;

/// A completion request.
pub struct Request<'a> {
    pub system_prompt: Option<&'a str>,
    pub user_content: &'a str,
    pub max_tokens: usize,
    pub response_format: Option<ResponseFormat>,
}

/// The structured output that a request asks for.
#[derive(Debug, Clone)]
pub enum ResponseFormat {
    JsonSchema { name: String, schema: serde_json::Value, strict: bool },
}

/// The text of a completion and its token counts.
#[derive(Debug)]
pub struct Response {
    pub content: String,
    pub input_tokens: usize,
    pub output_tokens: usize,
}

/// The JSON body sent to the Responses API.
pub struct ApiRequest {
    pub model: String,
    pub input: String,
    pub instructions: Option<String>,
    pub max_output_tokens: Option<usize>,
    pub text: Option<ApiTextConfig>,
}

/// The `text` settings of a request.
pub struct ApiTextConfig {
    pub format: ApiTextFormat,
}

/// The output format named in a request.
pub enum ApiTextFormat {
    JsonSchema { name: String, schema: serde_json::Value, strict: Option<bool> },
}

/// The decoded JSON reply of the Responses API.
pub struct ApiResponse {
    pub output: Option<Vec<ApiOutputItem>>,
    pub usage: Option<ApiUsage>,
    pub error: Option<ApiError>,
    pub status: Option<String>,
    pub incomplete_details: Option<ApiIncompleteDetails>,
}

/// One item of the reply's output.
pub struct ApiOutputItem {
    pub item_type: String,
    pub content: Option<Vec<ApiOutputContent>>,
}

/// One piece of an output item's content.
pub struct ApiOutputContent {
    pub content_type: String,
    pub text: Option<String>,
    pub json: Option<serde_json::Value>,
}

/// The compact JSON text that `serde_json::to_string` writes for a value, where it writes one.
pub uninterp spec fn json_text(v: serde_json::Value) -> Option<Seq<char>>;

/// Writes a JSON value out with `serde_json::to_string`, dropping a failure. The text is a
/// function of the value; nothing more is stated of it.
#[verifier::external_body]
fn write_json(v: &serde_json::Value) -> (r: Option<String>)
    ensures
        r.deep_view() == json_text(*v),
{
    serde_json::to_string(v).ok()
}

/// Token counts of the reply.
pub struct ApiUsage {
    pub input_tokens: usize,
    pub output_tokens: usize,
}

/// An error reported in the reply's body.
pub struct ApiError {
    pub message: String,
    pub error_type: Option<String>,
}

/// Why a reply is incomplete.
pub struct ApiIncompleteDetails {
    pub reason: Option<String>,
}

/// The characters of an optional string, or nothing.
pub open spec fn text_or_empty(s: Option<String>) -> Seq<char> {
    match s {
        Some(t) => t@,
        None => Seq::empty(),
    }
}

/// What one piece of content adds to the completion: the text of an `output_text` piece,
/// the JSON text of an `output_json` piece, nothing for any other piece.
pub open spec fn piece_text(c: ApiOutputContent) -> Seq<char> {
    if c.content_type@ == "output_text"@ {
        text_or_empty(c.text)
    } else if c.content_type@ == "output_json"@ {
        match c.json {
            Some(v) => match json_text(v) {
                Some(t) => t,
                None => Seq::empty(),
            },
            None => Seq::empty(),
        }
    } else {
        Seq::empty()
    }
}

/// The pieces' texts, in order, joined.
pub open spec fn pieces_text(cs: Seq<ApiOutputContent>) -> Seq<char>
    decreases cs.len(),
{
    if cs.len() == 0 {
        Seq::empty()
    } else {
        pieces_text(cs.drop_last()) + piece_text(cs.last())
    }
}

/// The text of one output item.
pub open spec fn item_text(item: ApiOutputItem) -> Seq<char> {
    match item.content {
        Some(cs) => pieces_text(cs@),
        None => Seq::empty(),
    }
}

/// The items' texts, in order, joined.
pub open spec fn items_text(items: Seq<ApiOutputItem>) -> Seq<char>
    decreases items.len(),
{
    if items.len() == 0 {
        Seq::empty()
    } else {
        items_text(items.drop_last()) + item_text(items.last())
    }
}

/// The text of a list of pieces is the plain concatenation of the pieces' texts: splitting the
/// pieces anywhere splits the text there, with nothing inserted or lost between.
pub proof fn pieces_text_concat(a: Seq<ApiOutputContent>, b: Seq<ApiOutputContent>)
    ensures
        pieces_text(a + b) == pieces_text(a) + pieces_text(b),
    decreases b.len(),
{
    if b.len() == 0 {
        assert(a + b =~= a);
        assert(pieces_text(a) + pieces_text(b) =~= pieces_text(a));
    } else {
        pieces_text_concat(a, b.drop_last());
        assert((a + b).drop_last() =~= a + b.drop_last());
        assert((a + b).last() == b.last());
        assert(pieces_text(a + b) =~= pieces_text(a) + pieces_text(b));
    }
}

/// A single piece contributes the text of an `output_text` piece, the JSON text of an
/// `output_json` piece's value, and nothing otherwise.
pub proof fn pieces_text_of_one_piece(c: ApiOutputContent)
    ensures
        c.content_type@ == "output_text"@ ==> pieces_text(seq![c]) == (match c.text {
            Some(t) => t@,
            None => Seq::<char>::empty(),
        }),
        c.content_type@ == "output_json"@ ==> pieces_text(seq![c]) == (match c.json {
            Some(v) => match json_text(v) {
                Some(t) => t,
                None => Seq::<char>::empty(),
            },
            None => Seq::<char>::empty(),
        }),
        c.content_type@ != "output_text"@ && c.content_type@ != "output_json"@ ==> pieces_text(
            seq![c],
        ) == Seq::<char>::empty(),
{
    reveal_with_fuel(pieces_text, 2);
    assert(seq![c].drop_last() =~= Seq::<ApiOutputContent>::empty());
    assert(seq![c].last() == c);
    assert(pieces_text(seq![c]) =~= piece_text(c));
    if c.content_type@ == "output_text"@ {
        reveal_strlit("output_text");
        reveal_strlit("output_json");
        assert("output_text"@[7] != "output_json"@[7]);
        assert(c.content_type@ != "output_json"@);
    }
}

/// The text of a list of output items is the plain concatenation of the items' texts, and an
/// item's text is the text of its pieces (nothing if it has none).
pub proof fn items_text_concat(a: Seq<ApiOutputItem>, b: Seq<ApiOutputItem>)
    ensures
        items_text(a + b) == items_text(a) + items_text(b),
    decreases b.len(),
{
    if b.len() == 0 {
        assert(a + b =~= a);
        assert(items_text(a) + items_text(b) =~= items_text(a));
    } else {
        items_text_concat(a, b.drop_last());
        assert((a + b).drop_last() =~= a + b.drop_last());
        assert((a + b).last() == b.last());
        assert(items_text(a + b) =~= items_text(a) + items_text(b));
    }
}

/// A single output item contributes the text of its pieces, or nothing if it has no content.
pub proof fn items_text_of_one_item(item: ApiOutputItem)
    ensures
        item.content matches Some(cs) ==> items_text(seq![item]) == pieces_text(cs@),
        item.content is None ==> items_text(seq![item]) == Seq::<char>::empty(),
{
    reveal_with_fuel(items_text, 2);
    assert(seq![item].drop_last() =~= Seq::<ApiOutputItem>::empty());
    assert(seq![item].last() == item);
    assert(items_text(seq![item]) =~= item_text(item));
}

/// The completion text of a reply: the text of all its output items.
pub open spec fn output_text(response: ApiResponse) -> Seq<char> {
    match response.output {
        Some(items) => items_text(items@),
        None => Seq::empty(),
    }
}

/// The reply says that it is incomplete.
pub open spec fn is_incomplete(response: ApiResponse) -> bool {
    response.status matches Some(s) && s@ == "incomplete"@
}

/// Why the reply is incomplete, as reported, or `unknown`.
pub open spec fn incomplete_reason(response: ApiResponse) -> Seq<char> {
    match response.incomplete_details {
        Some(d) => match d.reason {
            Some(r) => r@,
            None => "unknown"@,
        },
        None => "unknown"@,
    }
}

/// The message of an error reported in the body: the error's message and its type.
pub open spec fn error_message(e: ApiError) -> Seq<char> {
    e.message@ + " (type: "@ + debug_text_of_optional_string(e.error_type.deep_view()) + ")"@
}

/// The number of bytes of the body quoted when a reply holds no output text.
pub open spec fn quoted_body_limit() -> int {
    2000
}

/// The reply holds no error, is not incomplete, and its output text is blank:
/// the case in which the body is quoted in the error.
pub open spec fn has_no_output(response: ApiResponse) -> bool {
    &&& response.error is None
    &&& !is_incomplete(response)
    &&& is_blank(output_text(response))
}

/// The API error for an error reported in the body, given how its type prints.
pub fn error_with_type(e: ApiError, type_text: &str) -> (r: ProviderError)
    ensures
        r.is_api(400, e.message@ + " (type: "@ + type_text@ + ")"@, e.error_type.deep_view()),
{
    let message = e.message.concat(" (type: ").concat(type_text).concat(")");
    ProviderError::Api { status: 400, message, error_type: e.error_type }
}

/// The output-token limit of a provider made without one.
pub open spec fn default_max_tokens() -> usize {
    16384
}

/// The text format that a request sends for a response format.
pub fn map_response_format(format: ResponseFormat) -> (r: ApiTextConfig)
    ensures
        match (format, r.format) {
            (
                ResponseFormat::JsonSchema { name, schema, strict },
                ApiTextFormat::JsonSchema { name: n, schema: s, strict: st },
            ) => n@ == name@ && s == schema && st == Some(strict),
        },
{
    match format {
        ResponseFormat::JsonSchema { name, schema, strict } => ApiTextConfig {
            format: ApiTextFormat::JsonSchema { name, schema, strict: Some(strict) },
        },
    }
}

/// Whether the reply says that it is incomplete.
pub fn says_incomplete(response: &ApiResponse) -> (r: bool)
    ensures
        r == is_incomplete(*response),
{
    match &response.status {
        Some(s) => str_eq(s.as_str(), "incomplete"),
        None => false,
    }
}

/// The completion text of a reply: the texts of its `output_text` pieces and the JSON texts
/// of its `output_json` pieces, in order, joined.
pub fn collect_output_text(response: &ApiResponse) -> (r: String)
    ensures
        r@ == output_text(*response),
{
    let mut content = String::new();
    if let Some(items) = &response.output {
        let mut i: usize = 0;
        while i < items.len()
            invariant
                i <= items@.len(),
                content@ == items_text(items@.take(i as int)),
            decreases items@.len() - i,
        {
            proof {
                assert(items@.take(i + 1).drop_last() =~= items@.take(i as int));
            }
            if let Some(cs) = &items[i].content {
                let mut j: usize = 0;
                let ghost before = content@;
                while j < cs.len()
                    invariant
                        j <= cs@.len(),
                        content@ == before + pieces_text(cs@.take(j as int)),
                    decreases cs@.len() - j,
                {
                    proof {
                        assert(cs@.take(j + 1).drop_last() =~= cs@.take(j as int));
                    }
                    let c = &cs[j];
                    if str_eq(c.content_type.as_str(), "output_text") {
                        if let Some(t) = &c.text {
                            content.append(t.as_str());
                        }
                    } else if str_eq(c.content_type.as_str(), "output_json") {
                        if let Some(v) = &c.json {
                            if let Some(t) = write_json(v) {
                                content.append(t.as_str());
                            }
                        }
                    }
                    proof {
                        assert(content@ =~= before + pieces_text(cs@.take(j + 1)));
                    }
                    j = j + 1;
                }
                proof {
                    assert(cs@.take(cs@.len() as int) =~= cs@);
                }
            }
            proof {
                assert(content@ =~= items_text(items@.take(i + 1)));
            }
            i = i + 1;
        }
        proof {
            assert(items@.take(items@.len() as int) =~= items@);
        }
    }
    content
}

/// Whether the reply is one whose body `OpenAIProvider::parse_response` quotes in its error:
/// no error, not incomplete, and a blank output text.
pub fn has_no_output_text(response: &ApiResponse) -> (r: bool)
    ensures
        r == has_no_output(*response),
{
    if response.error.is_some() || says_incomplete(response) {
        return false;
    }
    let content = collect_output_text(response);
    str_is_blank(content.as_str())
}

/// `r` is how `OpenAIProvider::parse_response` reads the decoded reply `response`, whose raw
/// text is `body`: an error in the body becomes an API error with status 400; an incomplete
/// reply an API error with status 200 that gives the reason; a reply whose output text is
/// blank a parse error without source that quotes the body, cut after 2000 bytes; otherwise
/// the completion is the joined output text, with token counts of zero where the reply has none.
pub open spec fn reads_reply(response: ApiResponse, body: Seq<char>, r: Result<Response>) -> bool {
    &&& response.error matches Some(e) ==> (r matches Err(err) && err.is_api(
        400,
        error_message(e),
        e.error_type.deep_view(),
    ))
    &&& response.error is None && is_incomplete(response) ==> (r matches Err(err) && err.is_api(
        200,
        "response incomplete (reason: "@ + incomplete_reason(response) + ")"@,
        None,
    ))
    &&& has_no_output(response) ==> (r matches Err(err) && exists|q: Seq<char>|
        #[trigger] is_truncation(body, quoted_body_limit(), q) && err.is_parse(
            "response contained no output_text. Raw response: "@ + q,
        )) && (r matches Err(ProviderError::Parse { source, .. }) && source is None)
    &&& (r is Ok <==> response.error is None && !is_incomplete(response) && !is_blank(
        output_text(response),
    ))
    &&& r matches Ok(resp) ==> {
        &&& resp.content@ == output_text(response)
        &&& resp.input_tokens == (match response.usage {
            Some(u) => u.input_tokens,
            None => 0,
        })
        &&& resp.output_tokens == (match response.usage {
            Some(u) => u.output_tokens,
            None => 0,
        })
    }
}

/// A reply without error, not incomplete, whose output text holds a character that is not
/// whitespace, is read successfully, and its completion is exactly that output text with the
/// reply's token counts (zero where it has none).
pub proof fn visible_output_is_read(response: ApiResponse, body: Seq<char>, r: Result<Response>, i: int)
    requires
        reads_reply(response, body, r),
        response.error is None,
        !is_incomplete(response),
        0 <= i < output_text(response).len(),
        !char_is_whitespace(output_text(response)[i]),
    ensures
        r matches Ok(resp) && resp.content@ == output_text(response) && resp.input_tokens == (
        match response.usage {
            Some(u) => u.input_tokens,
            None => 0,
        }) && resp.output_tokens == (match response.usage {
            Some(u) => u.output_tokens,
            None => 0,
        }),
{
    blank_iff_every_char_whitespace(output_text(response));
}

/// The reason given for an incomplete reply is the one the reply reports, word for word, or
/// `unknown` where it reports none.
pub proof fn incomplete_reason_is_reported(response: ApiResponse)
    ensures
        (response.incomplete_details matches Some(d) && d.reason is Some) ==> incomplete_reason(
            response,
        ) == response.incomplete_details.unwrap().reason.unwrap()@,
        (response.incomplete_details is None || response.incomplete_details.unwrap().reason is None)
            ==> incomplete_reason(response) == "unknown"@,
{
}

/// The message of an error reported in a reply body begins with the error's own message.
pub proof fn error_message_begins_with_reported_message(e: ApiError)
    ensures
        e.message@.len() <= error_message(e).len(),
        error_message(e).take(e.message@.len() as int) == e.message@,
{
    assert(error_message(e).take(e.message@.len() as int) =~= e.message@);
}

/// OpenAI API client.
pub struct OpenAIProvider {
    client: ureq::Agent,
    api_key: String,
    model: String,
    max_tokens: usize,
    api_base: String,
}

impl OpenAIProvider {
    /// The base URL used when none is given.
    pub const DEFAULT_API_BASE: &'static str = "https://api.openai.com/v1";

    /// The agent that sends this provider's requests.
    pub closed spec fn spec_client(&self) -> ureq::Agent {
        self.client
    }

    /// The API key.
    pub closed spec fn spec_api_key(&self) -> Seq<char> {
        self.api_key@
    }

    /// The model name.
    pub closed spec fn spec_model(&self) -> Seq<char> {
        self.model@
    }

    /// The largest number of output tokens that a request may ask for.
    pub closed spec fn spec_max_tokens(&self) -> usize {
        self.max_tokens
    }

    /// The base URL of the API.
    pub closed spec fn spec_api_base(&self) -> Seq<char> {
        self.api_base@
    }

    /// A provider with the given API key and model. Without `max_tokens`, responses are
    /// limited to 16384 tokens; without `api_base`, the public API is used; the agent's
    /// requests time out after `timeout_seconds`, or 120 seconds.
    pub fn with_api_key(
        api_key: String,
        model: String,
        max_tokens: Option<usize>,
        api_base: Option<String>,
        timeout_seconds: Option<u64>,
    ) -> (p: Self)
        ensures
            p.spec_api_key() == api_key@,
            agent_global_timeout(p.spec_client()) == Some(
                duration_from_secs(
                    match timeout_seconds {
                        Some(s) => s,
                        None => default_timeout_secs(),
                    },
                ),
            ),
            !agent_status_as_error(p.spec_client()),
            p.spec_model() == model@,
            p.spec_max_tokens() == (match max_tokens {
                Some(m) => m,
                None => default_max_tokens(),
            }),
            p.spec_api_base() == (match api_base {
                Some(b) => b@,
                None => Self::DEFAULT_API_BASE@,
            }),
    {
        let client = create_agent(&Self::client_config(timeout_seconds));
        let max_tokens = match max_tokens {
            Some(m) => m,
            None => 16384,
        };
        let api_base = match api_base {
            Some(b) => b,
            None => String::from_str(Self::DEFAULT_API_BASE),
        };
        OpenAIProvider { client, api_key, model, max_tokens, api_base }
    }

    /// The configuration of the agent that `with_api_key` makes for `timeout_seconds`.
    pub fn client_config(timeout_seconds: Option<u64>) -> (c: ClientConfig)
        ensures
            c.timeout == duration_from_secs(
                match timeout_seconds {
                    Some(s) => s,
                    None => default_timeout_secs(),
                },
            ),
    {
        let secs = match timeout_seconds {
            Some(s) => s,
            None => 120,
        };
        ClientConfig { timeout: Duration::from_secs(secs) }
    }

    /// Returns the provider name.
    pub fn name(&self) -> (r: &str)
        ensures
            r@ == "openai"@,
    {
        "openai"
    }

    /// Returns the model name.
    pub fn model(&self) -> (r: &str)
        ensures
            r@ == self.spec_model(),
    {
        self.model.as_str()
    }

    /// Returns the API key.
    pub fn api_key(&self) -> (r: &str)
        ensures
            r@ == self.spec_api_key(),
    {
        self.api_key.as_str()
    }

    /// The headers of every request, in order: the credentials, then the content type.
    pub fn request_headers(&self) -> (r: Vec<(String, String)>)
        ensures
            r@.len() == 2,
            r@[0].0@ == "Authorization"@ && r@[0].1@ == "Bearer "@ + self.spec_api_key(),
            r@[1].0@ == "Content-Type"@ && r@[1].1@ == "application/json"@,
    {
        let mut r: Vec<(String, String)> = Vec::new();
        r.push((String::from_str("Authorization"), String::from_str("Bearer ").concat(self.api_key.as_str())));
        r.push((String::from_str("Content-Type"), String::from_str("application/json")));
        r
    }

    /// The agent that sends this provider's requests.
    pub fn client(&self) -> (r: &ureq::Agent)
        ensures
            *r == self.spec_client(),
    {
        &self.client
    }

    /// The URL of the `responses` endpoint.
    pub fn request_url(&self) -> (r: String)
        ensures
            r@ == self.spec_api_base() + "/responses"@,
    {
        String::from_str(self.api_base.as_str()).concat("/responses")
    }

    /// The body to send for `request`: the user content as input, the system prompt as
    /// instructions, the smaller of the two token limits, and the response format if any.
    pub fn build_request(&self, request: Request<'_>) -> (r: ApiRequest)
        ensures
            r.model@ == self.spec_model(),
            r.input@ == request.user_content@,
            r.instructions is Some <==> request.system_prompt is Some,
            r.instructions matches Some(s) ==> s@ == request.system_prompt.unwrap()@,
            r.max_output_tokens == Some(min_tokens(request.max_tokens, self.spec_max_tokens())),
            r.max_output_tokens.unwrap() <= self.spec_max_tokens(),
            r.text is Some <==> request.response_format is Some,
            r.text matches Some(t) ==> match (request.response_format.unwrap(), t.format) {
                (
                    ResponseFormat::JsonSchema { name, schema, strict },
                    ApiTextFormat::JsonSchema { name: n, schema: s, strict: st },
                ) => n@ == name@ && s == schema && st == Some(strict),
            },
    {
        let Request { system_prompt, user_content, max_tokens, response_format } = request;
        let instructions = match system_prompt {
            Some(s) => Some(String::from_str(s)),
            None => None,
        };
        let limit = if max_tokens <= self.max_tokens {
            max_tokens
        } else {
            self.max_tokens
        };
        let text = match response_format {
            Some(f) => Some(map_response_format(f)),
            None => None,
        };
        ApiRequest {
            model: self.model.clone(),
            input: String::from_str(user_content),
            instructions,
            max_output_tokens: Some(limit),
            text,
        }
    }

    /// Reads a decoded reply, whose raw text is `body`. An error in the body becomes an API
    /// error with status 400; an incomplete reply an API error with status 200 that gives
    /// the reason; a reply whose output text is blank a parse error that quotes the body,
    /// cut after 2000 bytes. Otherwise the completion is the joined output text, with
    /// token counts of zero where the reply has none.
    pub fn parse_response(&self, response: ApiResponse, body: &str) -> (r: Result<Response>)
        requires
            has_no_output(response) ==> can_truncate(body@, quoted_body_limit()),
        ensures
            reads_reply(response, body@, r),
    {
        if response.error.is_some() {
            let ApiResponse { error, .. } = response;
            let e = error.unwrap();
            let shown = debug_optional_string(&e.error_type);
            return Err(error_with_type(e, shown.as_str()));
        }
        if says_incomplete(&response) {
            let reason: &str = match &response.incomplete_details {
                Some(d) => match &d.reason {
                    Some(r) => r.as_str(),
                    None => "unknown",
                },
                None => "unknown",
            };
            let message = String::from_str("response incomplete (reason: ").concat(reason).concat(
                ")",
            );
            return Err(ProviderError::api(200, message));
        }
        let content = collect_output_text(&response);
        if str_is_blank(content.as_str()) {
            let quoted = truncate_body(body, 2000);
            let message = String::from_str("response contained no output_text. Raw response: ")
                .concat(quoted.as_str());
            let err = ProviderError::parse(message);
            assert(is_truncation(body@, quoted_body_limit(), quoted@));
            return Err(err);
        }
        let (input_tokens, output_tokens) = match response.usage {
            Some(u) => (u.input_tokens, u.output_tokens),
            None => (0, 0),
        };
        Ok(Response { content, input_tokens, output_tokens })
    }

    /// Reads a decoded reply as `parse_response` does, where that can be done: `None` for a
    /// reply whose blank output would be quoted from a body that cannot be cut after 2000
    /// bytes (no character starts there).
    pub fn try_parse_response(&self, response: ApiResponse, body: &str) -> (r: Option<
        Result<Response>,
    >)
        ensures
            r is None <==> has_no_output(response) && !can_truncate(body@, quoted_body_limit()),
            r matches Some(res) ==> reads_reply(response, body@, res),
    {
        if has_no_output_text(&response) && !(body.as_bytes().len() <= 2000
            || body.is_char_boundary(2000)) {
            None
        } else {
            Some(self.parse_response(response, body))
        }
    }
}

} // verus!
