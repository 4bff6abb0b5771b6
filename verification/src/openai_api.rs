use vstd::prelude::*;

use crate::configuration::{ApiConfig, ApiKey};
use crate::errors::AppError;
use crate::net::{url_with_path, WebUrl};
use crate::server_sent_events::SseClient;

verus! {

/// Request message role type
#[derive(Debug, Clone, Copy, PartialEq, Eq, Structural)]
pub enum Role {
    /// Used for generating system messages
    System,
    /// Used for generating regular user messages
    User,
}

/// Request system or user message
#[derive(Debug)]
pub struct Message {
    /// Message author role ("system" or "user")
    pub role: Role,
    /// Message body
    pub content: String,
}

/// OpenAI API stream request options
#[derive(Debug)]
pub struct OpenAIRequestStreamOptions {
    /// Whether token usaage should be included in the response stream.
    ///
    /// Typically, the runner provides aggregate token usage for the whole run in the final chunk of
    /// the response stream, rather than a running count in each chunk.
    pub include_usage: bool,
}

/// OpenAI API request
#[derive(Debug)]
pub struct OpenAIRequest<'a> {
    /// Runner model
    pub model: &'a str,
    /// Request messages
    pub messages: Vec<Message>,
    /// Whether the server should respond with a stream of events, as thery become available or
    /// buffer everything into a single response
    pub stream: bool,
    /// OpenAI API stream request options
    pub stream_options: OpenAIRequestStreamOptions,
}

/// Response and prompt token usage
#[derive(Debug, Clone, Copy, PartialEq, Eq, Structural)]
pub struct Timings {
    /// Number of token in the prompt
    pub prompt_n: u32,
    /// Number of token in the response
    pub predicted_n: u32,
}

/// Open AI stream final chunk, potentially including timing data and model metadata
#[derive(Debug)]
pub struct FinalStreamChunk {
    /// Model name or alias
    pub model: Option<String>,
    /// Run token usage
    pub timings: Option<Timings>,
}

/// OpenAI API response stream chunk
#[derive(Debug)]
pub enum StreamChunk {
    /// Stream chunk with no content or reasoning
    Empty,
    /// Response chunk
    Content(String),
    /// Reasoning chunk.
    ///
    /// This variant is only constructed when both the model and runner support reasoning.
    Reasoning(String),
    /// Final chunk
    Final(FinalStreamChunk),
}

/// Model of a [`StreamChunk`] over the views of its texts.
pub enum StreamChunkView {
    /// No content or reasoning
    Empty,
    /// Response text
    Content(Seq<char>),
    /// Reasoning text
    Reasoning(Seq<char>),
    /// Final chunk with model name and token usage
    Final(Option<Seq<char>>, Option<Timings>),
}

/// View of an optional text.
pub open spec fn opt_text(s: Option<String>) -> Option<Seq<char>> {
    match s {
        Some(t) => Some(t@),
        None => None,
    }
}

impl View for StreamChunk {
    type V = StreamChunkView;

    open spec fn view(&self) -> StreamChunkView {
        match self {
            StreamChunk::Empty => StreamChunkView::Empty,
            StreamChunk::Content(s) => StreamChunkView::Content(s@),
            StreamChunk::Reasoning(s) => StreamChunkView::Reasoning(s@),
            StreamChunk::Final(f) => StreamChunkView::Final(opt_text(f.model), f.timings),
        }
    }
}

/// Path of the chat completions endpoint
pub const COMPLETIONS_PATH: &'static str = "/v1/chat/completions";

/// OpenAI API compatible client
pub struct OpenAIAPIClient<'a> {
    api_key: &'a ApiKey,
    sse_client: SseClient,
}

/// The chat completions URL on the server at `base_url`: the base URL with its path replaced.
pub fn completions_url_from_base_url(base_url: &WebUrl) -> (res: WebUrl)
    ensures
        res@ == url_with_path(base_url@, COMPLETIONS_PATH@),
{
    base_url.with_path(COMPLETIONS_PATH)
}

/// The request for a streamed chat completion by `model` of `prompt` under `system_prompt`.
pub open spec fn is_request_for(
    request: OpenAIRequest,
    model: Seq<char>,
    system_prompt: Seq<char>,
    prompt: Seq<char>,
) -> bool {
    &&& request.model@ == model
    &&& request.messages@.len() == 2
    &&& request.messages@[0].role == Role::System
    &&& request.messages@[0].content@ == system_prompt
    &&& request.messages@[1].role == Role::User
    &&& request.messages@[1].content@ == prompt
    &&& request.stream
    &&& request.stream_options.include_usage
}

impl<'a> OpenAIAPIClient<'a> {
    /// Text of the API key the client authenticates with.
    pub closed spec fn spec_api_key(&self) -> Seq<char> {
        self.api_key@
    }

    /// Serialisation of the URL the client posts requests to.
    pub closed spec fn spec_url(&self) -> Seq<char> {
        self.sse_client.url@
    }

    /// Read timeout of the client, in seconds.
    pub closed spec fn spec_read_timeout_secs(&self) -> u64 {
        self.sse_client.read_timeout_secs
    }

    /// Create a new [`OpenAIAPIClient`] instance, which posts to the chat completions URL of the
    /// configured server.
    pub fn new(api_config: &'a ApiConfig) -> (res: Result<Self, AppError>)
        ensures
            res matches Ok(client) && client.spec_api_key() == api_config.spec_api_key()
                && client.spec_url() == url_with_path(api_config.spec_base_url(), COMPLETIONS_PATH@)
                && client.spec_read_timeout_secs() == api_config.spec_timeout_secs(),
    {
        let url = completions_url_from_base_url(api_config.base_url());
        let sse_client = SseClient { read_timeout_secs: api_config.timeout(), url };
        Ok(OpenAIAPIClient { api_key: api_config.api_key(), sse_client })
    }

    /// API key the client authenticates with
    pub fn api_key(&self) -> (res: &ApiKey)
        ensures
            res@ == self.spec_api_key(),
    {
        self.api_key
    }

    /// Server-Sent Event connection settings
    pub fn sse_client(&self) -> (res: &SseClient)
        ensures
            res.url@ == self.spec_url(),
            res.read_timeout_secs == self.spec_read_timeout_secs(),
    {
        &self.sse_client
    }

    /// The streamed chat completion request: a system message with `system_prompt`, then a
    /// user message with `prompt`, asking for token usage in the stream.
    pub fn build_request<'b>(&self, model: &'b str, system_prompt: &str, prompt: &str) -> (res:
        OpenAIRequest<'b>)
        ensures
            is_request_for(res, model@, system_prompt@, prompt@),
            res.model == model,
    {
        let mut messages: Vec<Message> = Vec::new();
        messages.push(Message { role: Role::System, content: String::from_str(system_prompt) });
        messages.push(Message { role: Role::User, content: String::from_str(prompt) });
        OpenAIRequest {
            model,
            messages,
            stream: true,
            stream_options: OpenAIRequestStreamOptions { include_usage: true },
        }
    }
}

} // verus!

