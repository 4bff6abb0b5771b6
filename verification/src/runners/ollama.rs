use vstd::prelude::*;

use crate::openai_api::{opt_text, FinalStreamChunk, StreamChunk, StreamChunkView, Timings};
use crate::runners::llamacpp::{spec_llamacpp_chunk, LlamacppStreamChunk};
use crate::runners::{
    spec_stream_metadata,
    extract_final_metadata, map_stream_chunk_json_parse_error,
    parse_open_ai_compatible_stream_chunk_string, same_text, spec_final_metadata,
    spec_string_chunk, LlmRunnerParser, OpenAiCompatibleStreamChunkChoice,
    OpenAiCompatibleStreamChunkChoiceDeltaContent,
    OpenAiCompatibleStreamChunkChoiceDeltaReasoningContent, OpenAiCompatibleStreamChunkObject,
};

verus! {

/// OpenAI API-compatible response stream chunk choice delta
#[derive(Debug)]
pub enum OllamaStreamChunkChoiceDelta {
    /// OpenAI API-compatible response stream chunk message
    Content(OpenAiCompatibleStreamChunkChoiceDeltaContent),
    /// OpenAI API-compatible response stream chunk reasoning message
    ReasoningContent(OpenAiCompatibleStreamChunkChoiceDeltaReasoningContent),
}

/// The fields of an Ollama chunk choice delta, as decoded from JSON.
#[derive(Debug)]
pub struct OllamaDeltaFields {
    /// Message body
    pub content: Option<String>,
    /// Reasoning message body
    pub reasoning: Option<String>,
    /// Message author role
    pub role: Option<String>,
}

/// Model of an Ollama delta: content or reasoning text.
pub enum OllamaDeltaView {
    /// Message body
    Content(Seq<char>),
    /// Reasoning message body
    Reasoning(Seq<char>),
}

/// Model of an optional Ollama delta.
pub open spec fn opt_delta(delta: Option<OllamaStreamChunkChoiceDelta>) -> Option<OllamaDeltaView> {
    match delta {
        Some(OllamaStreamChunkChoiceDelta::Content(c)) => Some(OllamaDeltaView::Content(c.content@)),
        Some(OllamaStreamChunkChoiceDelta::ReasoningContent(r)) => Some(
            OllamaDeltaView::Reasoning(r.reasoning@),
        ),
        None => None,
    }
}

/// The delta that decoded Ollama delta fields stand for: none when a role other than
/// "assistant" is given; the reasoning when it is given and not empty; otherwise the content,
/// or empty content when none is given.
pub open spec fn spec_ollama_delta(fields: OllamaDeltaFields) -> Option<OllamaDeltaView> {
    if fields.role is Some && fields.role.unwrap()@ != "assistant"@ {
        None
    } else if fields.reasoning is Some && fields.reasoning.unwrap()@.len() != 0 {
        Some(OllamaDeltaView::Reasoning(fields.reasoning.unwrap()@))
    } else {
        Some(
            OllamaDeltaView::Content(
                match fields.content {
                    Some(c) => c@,
                    None => Seq::empty(),
                },
            ),
        )
    }
}

/// Turns the decoded fields of an Ollama chunk choice delta into the choice's delta, as
/// `spec_ollama_delta` states; a decoding error is passed on.
pub fn deserialise_ollama_open_api_helper<E>(decoded: Result<OllamaDeltaFields, E>) -> (res: Result<
    Option<OllamaStreamChunkChoiceDelta>,
    E,
>)
    ensures
        match decoded {
            Ok(fields) => res matches Ok(delta) && opt_delta(delta) == spec_ollama_delta(fields),
            Err(e) => res == Err::<Option<OllamaStreamChunkChoiceDelta>, E>(e),
        },
{
    match decoded {
        Ok(OllamaDeltaFields { content, reasoning, role }) => {
            if let Some(value) = &role {
                if !same_text(value.as_str(), "assistant") {
                    return Ok(None);
                }
            }
            match reasoning {
                Some(value) => {
                    if !value.as_str().is_empty() {
                        return Ok(
                            Some(
                                OllamaStreamChunkChoiceDelta::ReasoningContent(
                                    OpenAiCompatibleStreamChunkChoiceDeltaReasoningContent {
                                        reasoning: value,
                                    },
                                ),
                            ),
                        );
                    }
                },
                None => {},
            }
            let content = match content {
                Some(c) => c,
                None => String::new(),
            };
            Ok(
                Some(
                    OllamaStreamChunkChoiceDelta::Content(
                        OpenAiCompatibleStreamChunkChoiceDeltaContent { content },
                    ),
                ),
            )
        },
        Err(e) => Err(e),
    }
}

/// OpenAI API-compatible response stream chunk choice
#[derive(Debug)]
pub struct OllamaStreamChunkChoice {
    ///  OpenAI API-compatible response stream chunk finished marker
    pub finish_reason: Option<String>,
    ///  OpenAI API-compatible response stream chunk delta
    pub delta: Option<OllamaStreamChunkChoiceDelta>,
}

impl OpenAiCompatibleStreamChunkChoice for OllamaStreamChunkChoice {
    open spec fn spec_finish_reason(&self) -> Option<Seq<char>> {
        opt_text(self.finish_reason)
    }

    fn finish_reason(&self) -> (res: Option<&str>) {
        match &self.finish_reason {
            Some(reason) => Some(reason.as_str()),
            None => None,
        }
    }
}

/// Lllamacpp runner model token usage
#[derive(Debug, Clone, Copy)]
pub struct OllamaStreamChunkUsage {
    /// Number of tokens in the runner model prompt
    pub prompt_tokens: u32,
    /// Number of tokens in the runner model generated completion
    pub completion_tokens: u32,
}

impl From<&OllamaStreamChunkUsage> for Timings {
    fn from(value: &OllamaStreamChunkUsage) -> (res: Timings) {
        Timings { prompt_n: value.prompt_tokens, predicted_n: value.completion_tokens }
    }
}

impl vstd::std_specs::convert::FromSpecImpl<&OllamaStreamChunkUsage> for Timings {
    open spec fn obeys_from_spec() -> bool {
        true
    }

    open spec fn from_spec(v: &OllamaStreamChunkUsage) -> Timings {
        Timings { prompt_n: v.prompt_tokens, predicted_n: v.completion_tokens }
    }
}

/// OpenAI API-compatible response stream chunk object
#[derive(Debug)]
pub struct OllamaStreamChunkObject {
    ///  OpenAI API-compatible response stream chunk choices
    pub choices: Vec<OllamaStreamChunkChoice>,
    /// Runner model name or alias
    pub model: String,
    /// Token usage of the run
    pub usage: Option<OllamaStreamChunkUsage>,
}

impl OpenAiCompatibleStreamChunkObject for OllamaStreamChunkObject {
    open spec fn spec_model(&self) -> Seq<char> {
        self.model@
    }

    open spec fn spec_timings(&self) -> Option<Timings> {
        match self.usage {
            Some(u) => Some(Timings { prompt_n: u.prompt_tokens, predicted_n: u.completion_tokens }),
            None => None,
        }
    }

    fn model(&self) -> (res: &str) {
        self.model.as_str()
    }

    fn timings(&self) -> (res: Option<Timings>) {
        match &self.usage {
            Some(u) => Some(Timings::from(u)),
            None => None,
        }
    }
}

///  OpenAI API-compatible response stream chunk
#[derive(Debug)]
pub enum OpenAiApiCompatibleStreamChunk {
    ///  OpenAI API-compatible response stream chunk string
    String(String),
    ///  OpenAI API-compatible response stream chunk object
    Object(OllamaStreamChunkObject),
}

///  OpenAI API-compatible response stream chunk
#[derive(Debug)]
pub enum OllamaStreamChunk {
    ///  OpenAI API-compatible response stream chunk string
    String(String),
    ///  OpenAI API-compatible response stream chunk object
    Object(OllamaStreamChunkObject),
}

/// The stream chunk that an Ollama response stream chunk stands for.
///
/// A string chunk is read by `spec_string_chunk`. An object chunk is read by its first choice:
/// no choice gives an empty chunk; a missing delta gives the final chunk with the metadata of
/// `spec_final_metadata`; a content delta gives its content; a reasoning delta gives its
/// reasoning.
pub open spec fn spec_ollama_chunk(value: OllamaStreamChunk) -> StreamChunkView {
    match value {
        OllamaStreamChunk::String(chunk) => spec_string_chunk(chunk@),
        OllamaStreamChunk::Object(object) => if object.choices@.len() == 0 {
            StreamChunkView::Empty
        } else {
            let choice = object.choices@[0];
            match choice.delta {
                None => {
                    let (model, timings) = spec_final_metadata(
                        choice.spec_finish_reason(),
                        object.spec_model(),
                        object.spec_timings(),
                    );
                    StreamChunkView::Final(model, timings)
                },
                Some(OllamaStreamChunkChoiceDelta::Content(c)) => StreamChunkView::Content(
                    c.content@,
                ),
                Some(OllamaStreamChunkChoiceDelta::ReasoningContent(r)) => StreamChunkView::Reasoning(
                    r.reasoning@,
                ),
            }
        },
    }
}

impl StreamChunk {
    /// The stream chunk that an Ollama response stream chunk stands for, as
    /// `spec_ollama_chunk` states.
    pub fn from_ollama(value: OllamaStreamChunk) -> (res: StreamChunk)
        ensures
            res@ == spec_ollama_chunk(value),
    {
        match value {
            OllamaStreamChunk::String(chunk) => parse_open_ai_compatible_stream_chunk_string(chunk),
            OllamaStreamChunk::Object(chunk_object) => {
                if chunk_object.choices.len() > 0 {
                    let choice = &chunk_object.choices[0];
                    match &choice.delta {
                        None => {
                            let (model, timings) = extract_final_metadata(choice, &chunk_object);
                            StreamChunk::Final(FinalStreamChunk { model, timings })
                        },
                        Some(OllamaStreamChunkChoiceDelta::Content(value)) => {
                            StreamChunk::Content(value.content.clone())
                        },
                        Some(OllamaStreamChunkChoiceDelta::ReasoningContent(value)) => {
                            StreamChunk::Reasoning(value.reasoning.clone())
                        },
                    }
                } else {
                    StreamChunk::Empty
                }
            },
        }
    }
}

/// Law: an Ollama chunk object shows what its first choice's delta holds: a content delta with
/// text `t` gives the content chunk `t`, a reasoning delta with text `t` the reasoning chunk `t`,
/// and only a choice without a delta ends the stream with the final chunk.
pub proof fn law_ollama_delta_text_is_shown(object: OllamaStreamChunkObject)
    requires
        object.choices@.len() > 0,
    ensures
        object.choices@[0].delta matches Some(OllamaStreamChunkChoiceDelta::Content(c))
            ==> spec_ollama_chunk(OllamaStreamChunk::Object(object)) == StreamChunkView::Content(
            c.content@,
        ),
        object.choices@[0].delta matches Some(OllamaStreamChunkChoiceDelta::ReasoningContent(r))
            ==> spec_ollama_chunk(OllamaStreamChunk::Object(object))
            == StreamChunkView::Reasoning(r.reasoning@),
        spec_ollama_chunk(OllamaStreamChunk::Object(object)) is Final <==> object.choices@[0].delta
            is None,
{
}

/// Law: Ollama delta fields with the assistant role (or none), text `t` as content and no
/// reasoning are shown as the content chunk `t` once they stand in the first choice of a
/// chunk object.
pub proof fn law_ollama_assistant_content_is_shown(
    fields: OllamaDeltaFields,
    object: OllamaStreamChunkObject,
    t: Seq<char>,
)
    requires
        fields.role is None || fields.role.unwrap()@ == "assistant"@,
        fields.reasoning is None,
        fields.content matches Some(c) && c@ == t,
        object.choices@.len() > 0,
        opt_delta(object.choices@[0].delta) == spec_ollama_delta(fields),
    ensures
        spec_ollama_chunk(OllamaStreamChunk::Object(object)) == StreamChunkView::Content(t),
{
}

/// Law: when the first choice of an Ollama chunk object has no delta and finished with "stop",
/// the chunk is the final chunk and it carries the object's model name and token usage.
pub proof fn law_ollama_stop_carries_metadata(object: OllamaStreamChunkObject)
    requires
        object.choices@.len() > 0,
        object.choices@[0].delta is None,
        object.choices@[0].spec_finish_reason() == Some("stop"@),
    ensures
        spec_ollama_chunk(OllamaStreamChunk::Object(object)) == StreamChunkView::Final(
            Some(object.model@),
            object.spec_timings(),
        ),
        spec_stream_metadata(spec_ollama_chunk(OllamaStreamChunk::Object(object))) == (
            Some(object.model@),
            match object.usage {
                Some(u) => Some(u.prompt_tokens),
                None => None,
            },
            match object.usage {
                Some(u) => Some(u.completion_tokens),
                None => None,
            },
        ),
{
}

/// Law: both runners read a chunk that decodes as a JSON string the same way.
pub proof fn law_string_chunks_agree(chunk: String)
    ensures
        spec_ollama_chunk(OllamaStreamChunk::String(chunk)) == spec_llamacpp_chunk(
            LlamacppStreamChunk::String(chunk),
        ),
{
}

/// Ollama runner
#[derive(Debug)]
pub struct OllamaRunner;

impl LlmRunnerParser for OllamaRunner {
    type Chunk = OllamaStreamChunk;

    open spec fn spec_name(&self) -> Seq<char> {
        "ollama"@
    }

    open spec fn spec_chunk(&self, chunk: OllamaStreamChunk) -> StreamChunkView {
        spec_ollama_chunk(chunk)
    }

    fn parse_stream_chunk(&self, chunk: &str, decoded: Result<OllamaStreamChunk, serde_json::Error>) -> (res:
        Option<StreamChunk>) {
        match decoded {
            Ok(value) => Some(StreamChunk::from_ollama(value)),
            Err(err) => map_stream_chunk_json_parse_error(chunk, self.name(), err),
        }
    }

    fn name(&self) -> (res: &'static str) {
        "ollama"
    }
}

impl OllamaRunner {
    /// Create a ['OllamaRunner']
    pub fn new() -> (res: Self)
        ensures
            res == OllamaRunner,
    {
        OllamaRunner
    }
}

} // verus!
