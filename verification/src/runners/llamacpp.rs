use vstd::prelude::*;

use crate::openai_api::{opt_text, FinalStreamChunk, StreamChunk, StreamChunkView, Timings};
use crate::runners::{
    spec_stream_metadata,
    extract_final_metadata, map_stream_chunk_json_parse_error,
    parse_open_ai_compatible_stream_chunk_string, same_text, spec_final_metadata,
    spec_string_chunk, LlmRunnerParser, OpenAiCompatibleStreamChunkChoice,
    OpenAiCompatibleStreamChunkChoiceDeltaContent, OpenAiCompatibleStreamChunkObject,
};

verus! {

/// OpenAI API-compatible response stream chunk message with author role
#[derive(Debug)]
pub struct LlamacppStreamChunkChoiceDeltaRoleContent {
    /// Message author role: "system" or "user"
    pub role: String,
    /// Message body
    pub content: Option<String>,
}

/// OpenAI API-compatible response stream chunk reasoning message
#[derive(Debug)]
pub struct LlamacppStreamChunkChoiceDeltaReasoningContent {
    /// Message body
    pub reasoning_content: String,
}

///  OpenAI API-compatible response stream chunk delta
#[derive(Debug)]
pub enum LlamacppStreamChunkChoiceDelta {
    ///  OpenAI API-compatible response stream chunk message without content
    Empty {},
    /// OpenAI API-compatible response stream chunk message with role
    RoleContent(LlamacppStreamChunkChoiceDeltaRoleContent),
    /// OpenAI API-compatible response stream chunk message
    Content(OpenAiCompatibleStreamChunkChoiceDeltaContent),
    /// OpenAI API-compatible response stream chunk reasoning message
    ReasoningContent(LlamacppStreamChunkChoiceDeltaReasoningContent),
}

///  OpenAI API-compatible response stream chunk choice
#[derive(Debug)]
pub struct LlamacppStreamChunkChoice {
    ///  OpenAI API-compatible response stream chunk finished marker
    pub finish_reason: Option<String>,
    ///  OpenAI API-compatible response stream chunk delta
    pub delta: Option<LlamacppStreamChunkChoiceDelta>,
}

/// A decoded delta, as the chunk choice holds it: an empty delta is none.
pub open spec fn spec_delta_with_empty(delta: LlamacppStreamChunkChoiceDelta) -> Option<
    LlamacppStreamChunkChoiceDelta,
> {
    match delta {
        LlamacppStreamChunkChoiceDelta::Empty {  } => None,
        _ => Some(delta),
    }
}

/// Turns the decoded delta of a chunk choice into the choice's delta: an empty delta object
/// becomes no delta; a decoding error is passed on.
pub fn deserialise_with_empty_delta<E>(decoded: Result<LlamacppStreamChunkChoiceDelta, E>) -> (res:
    Result<Option<LlamacppStreamChunkChoiceDelta>, E>)
    ensures
        match decoded {
            Ok(delta) => res == Ok::<Option<LlamacppStreamChunkChoiceDelta>, E>(
                spec_delta_with_empty(delta),
            ),
            Err(e) => res == Err::<Option<LlamacppStreamChunkChoiceDelta>, E>(e),
        },
{
    match decoded {
        Ok(LlamacppStreamChunkChoiceDelta::Empty {  }) => Ok(None),
        Ok(delta) => Ok(Some(delta)),
        Err(e) => Err(e),
    }
}

impl OpenAiCompatibleStreamChunkChoice for LlamacppStreamChunkChoice {
    open spec fn spec_finish_reason(&self) -> Option<Seq<char>> {
        opt_text(self.finish_reason)
    }

    fn finish_reason(&self) -> (res: Option<&str>) {
        match &self.finish_reason {
            Some(reason) => Some(reason.as_str()),
            None => None,
        }
    }
}

/// Lllamacpp runner model token usage
#[derive(Debug, Clone, Copy)]
pub struct LlamacppTimings {
    /// Runner model prompt tokens
    pub prompt_n: u32,
    /// Runner model response tokens
    pub predicted_n: u32,
}

impl From<&LlamacppTimings> for Timings {
    fn from(value: &LlamacppTimings) -> (res: Timings) {
        Timings { prompt_n: value.prompt_n, predicted_n: value.predicted_n }
    }
}

impl vstd::std_specs::convert::FromSpecImpl<&LlamacppTimings> for Timings {
    open spec fn obeys_from_spec() -> bool {
        true
    }

    open spec fn from_spec(v: &LlamacppTimings) -> Timings {
        Timings { prompt_n: v.prompt_n, predicted_n: v.predicted_n }
    }
}

///  OpenAI API-compatible response stream chunk object
#[derive(Debug)]
pub struct LlamacppStreamChunkObject {
    ///  OpenAI API-compatible response stream chunk choices
    pub choices: Vec<LlamacppStreamChunkChoice>,
    /// Lllamacpp runner model name or alias
    pub model: String,
    /// Lllamacpp runner model token usage
    pub timings: Option<LlamacppTimings>,
}

impl OpenAiCompatibleStreamChunkObject for LlamacppStreamChunkObject {
    open spec fn spec_model(&self) -> Seq<char> {
        self.model@
    }

    open spec fn spec_timings(&self) -> Option<Timings> {
        match self.timings {
            Some(t) => Some(Timings { prompt_n: t.prompt_n, predicted_n: t.predicted_n }),
            None => None,
        }
    }

    fn model(&self) -> (res: &str) {
        self.model.as_str()
    }

    fn timings(&self) -> (res: Option<Timings>) {
        match &self.timings {
            Some(t) => Some(Timings::from(t)),
            None => None,
        }
    }
}

///  OpenAI API-compatible response stream chunk
#[derive(Debug)]
pub enum LlamacppStreamChunk {
    ///  OpenAI API-compatible response stream chunk string
    String(String),
    ///  OpenAI API-compatible response stream chunk object
    Object(LlamacppStreamChunkObject),
}

/// The stream chunk that a llama.cpp response stream chunk stands for.
///
/// A string chunk is read by `spec_string_chunk`. An object chunk is read by its first choice:
/// no choice gives an empty chunk; a missing or empty delta gives the final chunk with the
/// metadata of `spec_final_metadata`; a delta with a role gives its content when the role is
/// "system" and content is present, an empty chunk otherwise; a content delta gives its
/// content; a reasoning delta gives its reasoning.
pub open spec fn spec_llamacpp_chunk(value: LlamacppStreamChunk) -> StreamChunkView {
    match value {
        LlamacppStreamChunk::String(chunk) => spec_string_chunk(chunk@),
        LlamacppStreamChunk::Object(object) => if object.choices@.len() == 0 {
            StreamChunkView::Empty
        } else {
            let choice = object.choices@[0];
            match choice.delta {
                None => {
                    let (model, timings) = spec_final_metadata(
                        choice.spec_finish_reason(),
                        object.spec_model(),
                        object.spec_timings(),
                    );
                    StreamChunkView::Final(model, timings)
                },
                Some(LlamacppStreamChunkChoiceDelta::Empty {  }) => {
                    let (model, timings) = spec_final_metadata(
                        choice.spec_finish_reason(),
                        object.spec_model(),
                        object.spec_timings(),
                    );
                    StreamChunkView::Final(model, timings)
                },
                Some(LlamacppStreamChunkChoiceDelta::RoleContent(rc)) => if rc.role@ == "system"@
                    && rc.content is Some {
                    StreamChunkView::Content(rc.content.unwrap()@)
                } else {
                    StreamChunkView::Empty
                },
                Some(LlamacppStreamChunkChoiceDelta::Content(c)) => StreamChunkView::Content(
                    c.content@,
                ),
                Some(LlamacppStreamChunkChoiceDelta::ReasoningContent(r)) => StreamChunkView::Reasoning(
                    r.reasoning_content@,
                ),
            }
        },
    }
}

impl StreamChunk {
    /// The stream chunk that a llama.cpp response stream chunk stands for, as
    /// `spec_llamacpp_chunk` states.
    pub fn from_llamacpp(value: LlamacppStreamChunk) -> (res: StreamChunk)
        ensures
            res@ == spec_llamacpp_chunk(value),
    {
        match value {
            LlamacppStreamChunk::String(chunk) => parse_open_ai_compatible_stream_chunk_string(
                chunk,
            ),
            LlamacppStreamChunk::Object(chunk_object) => {
                if chunk_object.choices.len() > 0 {
                    let choice = &chunk_object.choices[0];
                    match &choice.delta {
                        None => {
                            let (model, timings) = extract_final_metadata(choice, &chunk_object);
                            StreamChunk::Final(FinalStreamChunk { model, timings })
                        },
                        Some(LlamacppStreamChunkChoiceDelta::Empty {  }) => {
                            let (model, timings) = extract_final_metadata(choice, &chunk_object);
                            StreamChunk::Final(FinalStreamChunk { model, timings })
                        },
                        Some(
                            LlamacppStreamChunkChoiceDelta::RoleContent(
                                LlamacppStreamChunkChoiceDeltaRoleContent { role, content },
                            ),
                        ) => {
                            if same_text(role.as_str(), "system") {
                                match content {
                                    Some(content) => StreamChunk::Content(content.clone()),
                                    None => StreamChunk::Empty,
                                }
                            } else {
                                StreamChunk::Empty
                            }
                        },
                        Some(LlamacppStreamChunkChoiceDelta::Content(value)) => {
                            StreamChunk::Content(value.content.clone())
                        },
                        Some(LlamacppStreamChunkChoiceDelta::ReasoningContent(value)) => {
                            StreamChunk::Reasoning(value.reasoning_content.clone())
                        },
                    }
                } else {
                    StreamChunk::Empty
                }
            },
        }
    }
}

/// Law: decoding a llama.cpp delta drops it only when it is the empty delta object; any role,
/// content or reasoning delta is kept as it is.
pub proof fn law_only_empty_delta_is_dropped(delta: LlamacppStreamChunkChoiceDelta)
    ensures
        spec_delta_with_empty(delta) is None <==> delta is Empty,
        !(delta is Empty) ==> spec_delta_with_empty(delta) == Some(delta),
{
}

/// Law: a llama.cpp chunk object shows what its first choice's delta holds: a content delta
/// with text `t` gives the content chunk `t`, a reasoning delta the reasoning chunk of its
/// text, and a delta with a role never ends the stream: it gives its content when the role is
/// "system" and content is given, and an empty chunk otherwise. Only a choice without a
/// delta, or with the empty delta, ends the stream with the final chunk.
pub proof fn law_llamacpp_delta_text_is_shown(object: LlamacppStreamChunkObject)
    requires
        object.choices@.len() > 0,
    ensures
        object.choices@[0].delta matches Some(LlamacppStreamChunkChoiceDelta::Content(c))
            ==> spec_llamacpp_chunk(LlamacppStreamChunk::Object(object))
            == StreamChunkView::Content(c.content@),
        object.choices@[0].delta matches Some(
            LlamacppStreamChunkChoiceDelta::ReasoningContent(r),
        ) ==> spec_llamacpp_chunk(LlamacppStreamChunk::Object(object))
            == StreamChunkView::Reasoning(r.reasoning_content@),
        object.choices@[0].delta matches Some(LlamacppStreamChunkChoiceDelta::RoleContent(rc))
            ==> spec_llamacpp_chunk(LlamacppStreamChunk::Object(object)) == (if rc.role@
            == "system"@ && rc.content is Some {
            StreamChunkView::Content(rc.content.unwrap()@)
        } else {
            StreamChunkView::Empty
        }),
        spec_llamacpp_chunk(LlamacppStreamChunk::Object(object)) is Final <==> (
        object.choices@[0].delta is None || object.choices@[0].delta matches Some(
            LlamacppStreamChunkChoiceDelta::Empty {  },
        )),
{
}

/// Law: a choice whose delta was decoded from a delta with a role does not end the stream:
/// the chunk object it stands first in is never the final chunk.
pub proof fn law_llamacpp_role_delta_keeps_stream_open(
    role_content: LlamacppStreamChunkChoiceDeltaRoleContent,
    object: LlamacppStreamChunkObject,
)
    requires
        object.choices@.len() > 0,
        object.choices@[0].delta == spec_delta_with_empty(
            LlamacppStreamChunkChoiceDelta::RoleContent(role_content),
        ),
    ensures
        !(spec_llamacpp_chunk(LlamacppStreamChunk::Object(object)) is Final),
{
}

/// Law: when the first choice of a llama.cpp chunk object has no delta, or an empty one, and
/// finished with "stop", the chunk is the final chunk and it carries the object's model name and
/// token usage.
pub proof fn law_llamacpp_stop_carries_metadata(object: LlamacppStreamChunkObject)
    requires
        object.choices@.len() > 0,
        object.choices@[0].delta is None || object.choices@[0].delta == Some(
            LlamacppStreamChunkChoiceDelta::Empty {  },
        ),
        object.choices@[0].spec_finish_reason() == Some("stop"@),
    ensures
        spec_llamacpp_chunk(LlamacppStreamChunk::Object(object)) == StreamChunkView::Final(
            Some(object.model@),
            object.spec_timings(),
        ),
        spec_stream_metadata(spec_llamacpp_chunk(LlamacppStreamChunk::Object(object))) == (
            Some(object.model@),
            match object.timings {
                Some(t) => Some(t.prompt_n),
                None => None,
            },
            match object.timings {
                Some(t) => Some(t.predicted_n),
                None => None,
            },
        ),
{
}

/// Llamacpp runner
#[derive(Debug)]
pub struct LlamaCppRunner;

impl LlmRunnerParser for LlamaCppRunner {
    type Chunk = LlamacppStreamChunk;

    open spec fn spec_name(&self) -> Seq<char> {
        "llama.cpp"@
    }

    open spec fn spec_chunk(&self, chunk: LlamacppStreamChunk) -> StreamChunkView {
        spec_llamacpp_chunk(chunk)
    }

    fn parse_stream_chunk(&self, chunk: &str, decoded: Result<LlamacppStreamChunk, serde_json::Error>) -> (res:
        Option<StreamChunk>) {
        match decoded {
            Ok(value) => Some(StreamChunk::from_llamacpp(value)),
            Err(err) => map_stream_chunk_json_parse_error(chunk, self.name(), err),
        }
    }

    fn name(&self) -> (res: &'static str) {
        "llama.cpp"
    }
}

impl LlamaCppRunner {
    /// Create a ['LlamaCppRunner']
    pub fn new() -> (res: Self)
        ensures
            res == LlamaCppRunner,
    {
        LlamaCppRunner
    }
}

} // verus!
