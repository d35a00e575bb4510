//! Google Gemini API client: the request it sends and how it reads the reply.
use vstd::prelude::*;
use vstd::string::StringExecFns;
use crate::anthropic::min_tokens;
use crate::client::{
    agent_global_timeout, agent_status_as_error, create_default_agent, default_timeout_secs,
    duration_from_secs,
};
use crate::error::{ProviderError, Result};
use crate::text::{debug_optional_string, debug_text_of_optional_string};

verus! {

/// A completion request.
pub struct Request<'a> {
    pub system_prompt: Option<&'a str>,
    pub user_content: &'a str,
    pub max_tokens: usize,
}

/// The text of a completion and its token counts.
#[derive(Debug)]
pub struct Response {
    pub content: String,
    pub input_tokens: usize,
    pub output_tokens: usize,
}

/// The JSON body sent to `generateContent` (its sampling temperature is always zero and is
/// added where the body is encoded).
pub struct ApiRequest {
    pub contents: Vec<ApiContent>,
    pub generation_config: ApiGenerationConfig,
    pub system_instruction: Option<ApiContent>,
}

/// A piece of conversation: a list of text parts.
pub struct ApiContent {
    pub parts: Vec<ApiPart>,
}

/// One text part of a request.
pub struct ApiPart {
    pub text: String,
}

/// Generation settings of a request.
pub struct ApiGenerationConfig {
    pub max_output_tokens: usize,
}

/// The decoded JSON reply of `generateContent`.
pub struct ApiResponse {
    pub candidates: Option<Vec<ApiCandidate>>,
    pub usage_metadata: Option<ApiUsage>,
    pub error: Option<ApiError>,
}

/// One candidate completion.
pub struct ApiCandidate {
    pub content: Option<ApiResponseContent>,
    pub finish_reason: Option<String>,
}

/// The content of a candidate.
pub struct ApiResponseContent {
    pub parts: Vec<ApiResponsePart>,
}

/// One part of a candidate's content.
pub struct ApiResponsePart {
    pub text: Option<String>,
}

/// Token counts of the reply.
pub struct ApiUsage {
    pub prompt_token_count: Option<usize>,
    pub candidates_token_count: Option<usize>,
}

/// An error reported in the reply's body.
pub struct ApiError {
    pub message: String,
    pub status: Option<String>,
}

/// The text of a single part: its text, if it has one.
pub open spec fn part_text(part: ApiResponsePart) -> Seq<char> {
    match part.text {
        Some(t) => t@,
        None => Seq::empty(),
    }
}

/// The texts of the parts, in order, joined.
pub open spec fn joined_parts(parts: Seq<ApiResponsePart>) -> Seq<char>
    decreases parts.len(),
{
    if parts.len() == 0 {
        Seq::empty()
    } else {
        joined_parts(parts.drop_last()) + part_text(parts.last())
    }
}

/// The completion text of a reply: the joined parts of the first candidate's content, or
/// nothing if there is no such content.
pub open spec fn completion_text(response: ApiResponse) -> Seq<char> {
    match response.candidates {
        Some(cs) => if cs@.len() > 0 {
            match cs@[0].content {
                Some(c) => joined_parts(c.parts@),
                None => Seq::empty(),
            }
        } else {
            Seq::empty()
        },
        None => Seq::empty(),
    }
}

/// The text of a list of parts is the plain concatenation of the parts' texts: splitting the
/// parts anywhere splits the text there, with nothing inserted or lost between.
pub proof fn joined_parts_concat(a: Seq<ApiResponsePart>, b: Seq<ApiResponsePart>)
    ensures
        joined_parts(a + b) == joined_parts(a) + joined_parts(b),
    decreases b.len(),
{
    if b.len() == 0 {
        assert(a + b =~= a);
        assert(joined_parts(a) + joined_parts(b) =~= joined_parts(a));
    } else {
        joined_parts_concat(a, b.drop_last());
        assert((a + b).drop_last() =~= a + b.drop_last());
        assert((a + b).last() == b.last());
        assert(joined_parts(a + b) =~= joined_parts(a) + joined_parts(b));
    }
}

/// A single part contributes its text, or nothing if it has none.
pub proof fn joined_parts_of_one_part(part: ApiResponsePart)
    ensures
        part.text matches Some(t) ==> joined_parts(seq![part]) == t@,
        part.text is None ==> joined_parts(seq![part]) == Seq::<char>::empty(),
{
    reveal_with_fuel(joined_parts, 2);
    assert(seq![part].drop_last() =~= Seq::<ApiResponsePart>::empty());
    assert(seq![part].last() == part);
    assert(joined_parts(seq![part]) =~= part_text(part));
}

/// The completion is the text of the first candidate's parts, whatever that candidate's
/// finish reason and whatever the other candidates hold; it is empty where there is no
/// first candidate or it has no content.
pub proof fn completion_is_first_candidate(response: ApiResponse)
    ensures
        (response.candidates matches Some(cs) && cs@.len() > 0 && cs@[0].content is Some) ==>
            completion_text(response) == joined_parts(
                response.candidates.unwrap()@[0].content.unwrap().parts@,
            ),
        (response.candidates is None || response.candidates.unwrap()@.len() == 0
            || response.candidates.unwrap()@[0].content is None) ==> completion_text(response)
            == Seq::<char>::empty(),
{
}

/// A token count, zero where the reply has none.
pub open spec fn count_or_zero(count: Option<usize>) -> usize {
    match count {
        Some(n) => n,
        None => 0,
    }
}

/// The message of an error reported in the body: the error's message and its status.
pub open spec fn error_message(e: ApiError) -> Seq<char> {
    e.message@ + " (status: "@ + debug_text_of_optional_string(e.status.deep_view()) + ")"@
}

/// The API error for an error reported in the body, given how its status prints.
pub fn error_with_status(e: ApiError, status_text: &str) -> (r: ProviderError)
    ensures
        r.is_api(400, e.message@ + " (status: "@ + status_text@ + ")"@, e.status.deep_view()),
{
    let message = e.message.concat(" (status: ").concat(status_text).concat(")");
    ProviderError::Api { status: 400, message, error_type: e.status }
}

/// The message of an error reported in a reply body begins with the error's own message.
pub proof fn error_message_begins_with_reported_message(e: ApiError)
    ensures
        e.message@.len() <= error_message(e).len(),
        error_message(e).take(e.message@.len() as int) == e.message@,
{
    assert(error_message(e).take(e.message@.len() as int) =~= e.message@);
}

/// The output-token limit of a provider made without one.
pub open spec fn default_max_tokens() -> usize {
    16384
}

/// Google Gemini API client.
pub struct GeminiProvider {
    client: ureq::Agent,
    api_key: String,
    model: String,
    max_tokens: usize,
}

impl GeminiProvider {
    /// The base URL of the models API.
    pub const API_BASE: &'static str = "https://generativelanguage.googleapis.com/v1beta/models";

    /// The agent that sends this provider's requests.
    pub closed spec fn spec_client(&self) -> ureq::Agent {
        self.client
    }

    /// The API key.
    pub closed spec fn spec_api_key(&self) -> Seq<char> {
        self.api_key@
    }

    /// The model name.
    pub closed spec fn spec_model(&self) -> Seq<char> {
        self.model@
    }

    /// The largest number of output tokens that a request may ask for.
    pub closed spec fn spec_max_tokens(&self) -> usize {
        self.max_tokens
    }

    /// A provider with the given API key and model, and an agent with the default configuration.
    /// Without `max_tokens`, responses are limited to 16384 tokens.
    pub fn with_api_key(api_key: String, model: String, max_tokens: Option<usize>) -> (p: Self)
        ensures
            p.spec_api_key() == api_key@,
            agent_global_timeout(p.spec_client()) == Some(
                duration_from_secs(default_timeout_secs()),
            ),
            !agent_status_as_error(p.spec_client()),
            p.spec_model() == model@,
            p.spec_max_tokens() == (match max_tokens {
                Some(m) => m,
                None => default_max_tokens(),
            }),
    {
        let client = create_default_agent();
        let max_tokens = match max_tokens {
            Some(m) => m,
            None => 16384,
        };
        GeminiProvider { client, api_key, model, max_tokens }
    }

    /// Returns the provider name.
    pub fn name(&self) -> (r: &str)
        ensures
            r@ == "gemini"@,
    {
        "gemini"
    }

    /// Returns the model name.
    pub fn model(&self) -> (r: &str)
        ensures
            r@ == self.spec_model(),
    {
        self.model.as_str()
    }

    /// Returns the API key.
    pub fn api_key(&self) -> (r: &str)
        ensures
            r@ == self.spec_api_key(),
    {
        self.api_key.as_str()
    }

    /// The headers of every request, in order: the credentials, then the content type.
    pub fn request_headers(&self) -> (r: Vec<(String, String)>)
        ensures
            r@.len() == 2,
            r@[0].0@ == "x-goog-api-key"@ && r@[0].1@ == self.spec_api_key(),
            r@[1].0@ == "Content-Type"@ && r@[1].1@ == "application/json"@,
    {
        let mut r: Vec<(String, String)> = Vec::new();
        r.push((String::from_str("x-goog-api-key"), self.api_key.clone()));
        r.push((String::from_str("Content-Type"), String::from_str("application/json")));
        r
    }

    /// The agent that sends this provider's requests.
    pub fn client(&self) -> (r: &ureq::Agent)
        ensures
            *r == self.spec_client(),
    {
        &self.client
    }

    /// The URL of this model's `generateContent` method.
    pub fn request_url(&self) -> (r: String)
        ensures
            r@ == Self::API_BASE@ + "/"@ + self.spec_model() + ":generateContent"@,
    {
        String::from_str(Self::API_BASE).concat("/").concat(self.model.as_str()).concat(
            ":generateContent",
        )
    }

    /// The body to send for `request`: the user content as the only content, the system
    /// prompt as system instruction if any, and the smaller of the two token limits.
    pub fn build_request(&self, request: Request<'_>) -> (r: ApiRequest)
        ensures
            r.contents@.len() == 1,
            r.contents@[0].parts@.len() == 1,
            r.contents@[0].parts@[0].text@ == request.user_content@,
            r.generation_config.max_output_tokens == min_tokens(
                request.max_tokens,
                self.spec_max_tokens(),
            ),
            r.generation_config.max_output_tokens <= self.spec_max_tokens(),
            r.system_instruction is Some <==> request.system_prompt is Some,
            r.system_instruction matches Some(c) ==> c.parts@.len() == 1 && c.parts@[0].text@
                == request.system_prompt.unwrap()@,
    {
        let mut parts = Vec::new();
        parts.push(ApiPart { text: String::from_str(request.user_content) });
        let system_instruction = match request.system_prompt {
            Some(prompt) => {
                let mut sys_parts = Vec::new();
                sys_parts.push(ApiPart { text: String::from_str(prompt) });
                Some(ApiContent { parts: sys_parts })
            },
            None => None,
        };
        let max_output_tokens = if request.max_tokens <= self.max_tokens {
            request.max_tokens
        } else {
            self.max_tokens
        };
        let mut contents = Vec::new();
        contents.push(ApiContent { parts });
        ApiRequest {
            contents,
            generation_config: ApiGenerationConfig { max_output_tokens },
            system_instruction,
        }
    }

    /// Reads a decoded reply: an error in the body becomes an API error with status 400
    /// whose type is the error's status; otherwise the completion is the joined text of
    /// the first candidate, with token counts of zero where the reply has none.
    pub fn parse_response(&self, response: ApiResponse) -> (r: Result<Response>)
        ensures
            r is Err <==> response.error is Some,
            response.error matches Some(e) ==> (r matches Err(err) && err.is_api(
                400,
                error_message(e),
                e.status.deep_view(),
            )),
            r matches Ok(resp) ==> {
                &&& resp.content@ == completion_text(response)
                &&& resp.input_tokens == (match response.usage_metadata {
                    Some(u) => count_or_zero(u.prompt_token_count),
                    None => 0,
                })
                &&& resp.output_tokens == (match response.usage_metadata {
                    Some(u) => count_or_zero(u.candidates_token_count),
                    None => 0,
                })
            },
    {
        let ApiResponse { candidates, usage_metadata, error } = response;
        if let Some(e) = error {
            let shown = debug_optional_string(&e.status);
            return Err(error_with_status(e, shown.as_str()));
        }
        let mut content = String::new();
        if let Some(cs) = &candidates {
            if cs.len() > 0 {
                if let Some(c) = &cs[0].content {
                    let parts = &c.parts;
                    let mut i: usize = 0;
                    while i < parts.len()
                        invariant
                            i <= parts@.len(),
                            content@ == joined_parts(parts@.take(i as int)),
                        decreases parts@.len() - i,
                    {
                        proof {
                            assert(parts@.take(i + 1).drop_last() =~= parts@.take(i as int));
                        }
                        if let Some(t) = &parts[i].text {
                            content.append(t.as_str());
                        }
                        i = i + 1;
                    }
                    proof {
                        assert(parts@.take(parts@.len() as int) =~= parts@);
                    }
                }
            }
        }
        let (input_tokens, output_tokens) = match usage_metadata {
            Some(u) => {
                let input = match u.prompt_token_count {
                    Some(n) => n,
                    None => 0,
                };
                let output = match u.candidates_token_count {
                    Some(n) => n,
                    None => 0,
                };
                (input, output)
            },
            None => (0, 0),
        };
        Ok(Response { content, input_tokens, output_tokens })
    }
}

} // verus!
