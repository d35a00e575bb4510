//! Anthropic Messages API client: the request it sends and how it reads the reply.
use vstd::prelude::*;
use vstd::string::StringExecFns;
use crate::client::{
    agent_global_timeout, agent_status_as_error, create_default_agent, default_timeout_secs,
    duration_from_secs,
};
use crate::error::{ProviderError, Result};
use crate::text::str_eq;

verus! {

/// A completion request.
pub struct Request<'a> {
    pub system_prompt: Option<&'a str>,
    pub user_content: &'a str,
    pub max_tokens: usize,
}

/// The text of a completion and its token counts.
#[derive(Debug)]
pub struct Response {
    pub content: String,
    pub input_tokens: usize,
    pub output_tokens: usize,
}

/// The JSON body sent to the Messages API.
pub struct ApiRequest {
    pub model: String,
    pub max_tokens: usize,
    pub messages: Vec<ApiMessage>,
    pub system: Option<String>,
}

/// One message of the conversation.
pub struct ApiMessage {
    pub role: String,
    pub content: String,
}

/// The decoded JSON reply of the Messages API.
pub struct ApiResponse {
    pub content: Vec<ApiContent>,
    pub usage: Option<ApiUsage>,
    pub error: Option<ApiError>,
}

/// One block of the reply's content.
pub struct ApiContent {
    pub content_type: String,
    pub text: Option<String>,
}

/// Token counts of the reply.
pub struct ApiUsage {
    pub input_tokens: usize,
    pub output_tokens: usize,
}

/// An error reported in the reply's body.
pub struct ApiError {
    pub error_type: String,
    pub message: String,
}

/// The text that one content block adds to the completion: its text if it is a text block.
pub open spec fn block_text(block: ApiContent) -> Seq<char> {
    if block.content_type@ == "text"@ && block.text is Some {
        block.text.unwrap()@
    } else {
        Seq::empty()
    }
}

/// The completion text of the content blocks: the texts of the text blocks, in order, joined.
pub open spec fn completion_text(blocks: Seq<ApiContent>) -> Seq<char>
    decreases blocks.len(),
{
    if blocks.len() == 0 {
        Seq::empty()
    } else {
        completion_text(blocks.drop_last()) + block_text(blocks.last())
    }
}

/// The completion of a reply is the plain concatenation of its blocks' texts: splitting the
/// blocks anywhere splits the completion there, with nothing inserted or lost between.
pub proof fn completion_text_concat(a: Seq<ApiContent>, b: Seq<ApiContent>)
    ensures
        completion_text(a + b) == completion_text(a) + completion_text(b),
    decreases b.len(),
{
    if b.len() == 0 {
        assert(a + b =~= a);
        assert(completion_text(a) + completion_text(b) =~= completion_text(a));
    } else {
        completion_text_concat(a, b.drop_last());
        assert((a + b).drop_last() =~= a + b.drop_last());
        assert((a + b).last() == b.last());
        assert(completion_text(a + b) =~= completion_text(a) + completion_text(b));
    }
}

/// A single block contributes its text if it is a text block that has one, and nothing
/// otherwise.
pub proof fn completion_text_of_one_block(block: ApiContent)
    ensures
        block.content_type@ == "text"@ && block.text is Some ==> completion_text(seq![block])
            == block.text.unwrap()@,
        block.content_type@ != "text"@ ==> completion_text(seq![block]) == Seq::<char>::empty(),
        block.text is None ==> completion_text(seq![block]) == Seq::<char>::empty(),
{
    reveal_with_fuel(completion_text, 2);
    assert(seq![block].drop_last() =~= Seq::<ApiContent>::empty());
    assert(seq![block].last() == block);
    assert(completion_text(seq![block]) =~= block_text(block));
}

/// The smaller of two token limits.
pub open spec fn min_tokens(a: usize, b: usize) -> usize {
    if a <= b { a } else { b }
}

/// The output-token limit of a provider made without one.
pub open spec fn default_max_tokens() -> usize {
    8192
}

/// Anthropic Messages API client.
pub struct AnthropicProvider {
    client: ureq::Agent,
    api_key: String,
    model: String,
    max_tokens: usize,
}

impl AnthropicProvider {
    /// The URL of the Messages API.
    pub const API_ENDPOINT: &'static str = "https://api.anthropic.com/v1/messages";

    /// The API version sent with each request.
    pub const API_VERSION: &'static str = "2023-06-01";

    /// The agent that sends this provider's requests.
    pub closed spec fn spec_client(&self) -> ureq::Agent {
        self.client
    }

    /// The API key.
    pub closed spec fn spec_api_key(&self) -> Seq<char> {
        self.api_key@
    }

    /// The model name.
    pub closed spec fn spec_model(&self) -> Seq<char> {
        self.model@
    }

    /// The largest number of output tokens that a request may ask for.
    pub closed spec fn spec_max_tokens(&self) -> usize {
        self.max_tokens
    }

    /// A provider with the given API key and model, and an agent with the default configuration.
    /// Without `max_tokens`, responses are limited to 8192 tokens.
    pub fn with_api_key(api_key: String, model: String, max_tokens: Option<usize>) -> (p: Self)
        ensures
            p.spec_api_key() == api_key@,
            agent_global_timeout(p.spec_client()) == Some(
                duration_from_secs(default_timeout_secs()),
            ),
            !agent_status_as_error(p.spec_client()),
            p.spec_model() == model@,
            p.spec_max_tokens() == (match max_tokens {
                Some(m) => m,
                None => default_max_tokens(),
            }),
    {
        let client = create_default_agent();
        let max_tokens = match max_tokens {
            Some(m) => m,
            None => 8192,
        };
        AnthropicProvider { client, api_key, model, max_tokens }
    }

    /// Returns the provider name.
    pub fn name(&self) -> (r: &str)
        ensures
            r@ == "anthropic"@,
    {
        "anthropic"
    }

    /// Returns the model name.
    pub fn model(&self) -> (r: &str)
        ensures
            r@ == self.spec_model(),
    {
        self.model.as_str()
    }

    /// Returns the API key.
    pub fn api_key(&self) -> (r: &str)
        ensures
            r@ == self.spec_api_key(),
    {
        self.api_key.as_str()
    }

    /// The headers of every request, in order: the credentials, then the content type.
    pub fn request_headers(&self) -> (r: Vec<(String, String)>)
        ensures
            r@.len() == 3,
            r@[0].0@ == "x-api-key"@ && r@[0].1@ == self.spec_api_key(),
            r@[1].0@ == "anthropic-version"@ && r@[1].1@ == Self::API_VERSION@,
            r@[2].0@ == "Content-Type"@ && r@[2].1@ == "application/json"@,
    {
        let mut r: Vec<(String, String)> = Vec::new();
        r.push((String::from_str("x-api-key"), self.api_key.clone()));
        r.push((String::from_str("anthropic-version"), String::from_str(Self::API_VERSION)));
        r.push((String::from_str("Content-Type"), String::from_str("application/json")));
        r
    }

    /// The agent that sends this provider's requests.
    pub fn client(&self) -> (r: &ureq::Agent)
        ensures
            *r == self.spec_client(),
    {
        &self.client
    }

    /// The body to send for `request`: one user message, the system prompt if any,
    /// and the smaller of the two token limits.
    pub fn build_request(&self, request: Request<'_>) -> (r: ApiRequest)
        ensures
            r.model@ == self.spec_model(),
            r.max_tokens == min_tokens(request.max_tokens, self.spec_max_tokens()),
            r.max_tokens <= self.spec_max_tokens(),
            r.messages@.len() == 1,
            r.messages@[0].role@ == "user"@,
            r.messages@[0].content@ == request.user_content@,
            r.system is Some <==> request.system_prompt is Some,
            r.system matches Some(s) ==> s@ == request.system_prompt.unwrap()@,
    {
        let max_tokens = if request.max_tokens <= self.max_tokens {
            request.max_tokens
        } else {
            self.max_tokens
        };
        let mut messages = Vec::new();
        messages.push(ApiMessage {
            role: String::from_str("user"),
            content: String::from_str(request.user_content),
        });
        let system = match request.system_prompt {
            Some(s) => Some(String::from_str(s)),
            None => None,
        };
        ApiRequest { model: self.model.clone(), max_tokens, messages, system }
    }

    /// Reads a decoded reply: an error in the body becomes an API error with status 400;
    /// otherwise the completion is the joined text of the text blocks, with token counts
    /// of zero where the reply has none.
    pub fn parse_response(&self, response: ApiResponse) -> (r: Result<Response>)
        ensures
            r is Err <==> response.error is Some,
            response.error matches Some(e) ==> (r matches Err(err) && err.is_api(
                400,
                e.message@,
                Some(e.error_type@),
            )),
            r matches Ok(resp) ==> {
                &&& resp.content@ == completion_text(response.content@)
                &&& resp.input_tokens == (match response.usage {
                    Some(u) => u.input_tokens,
                    None => 0,
                })
                &&& resp.output_tokens == (match response.usage {
                    Some(u) => u.output_tokens,
                    None => 0,
                })
            },
    {
        let ApiResponse { content: blocks, usage, error } = response;
        if let Some(e) = error {
            return Err(ProviderError::api_with_type(400, e.message, e.error_type));
        }
        let mut content = String::new();
        let mut i: usize = 0;
        while i < blocks.len()
            invariant
                i <= blocks@.len(),
                content@ == completion_text(blocks@.take(i as int)),
            decreases blocks@.len() - i,
        {
            let block = &blocks[i];
            proof {
                assert(blocks@.take(i + 1).drop_last() =~= blocks@.take(i as int));
            }
            if str_eq(block.content_type.as_str(), "text") {
                if let Some(t) = &block.text {
                    content.append(t.as_str());
                }
            }
            i = i + 1;
        }
        proof {
            assert(blocks@.take(blocks@.len() as int) =~= blocks@);
        }
        let (input_tokens, output_tokens) = match usage {
            Some(u) => (u.input_tokens, u.output_tokens),
            None => (0, 0),
        };
        Ok(Response { content, input_tokens, output_tokens })
    }
}

} // verus!
