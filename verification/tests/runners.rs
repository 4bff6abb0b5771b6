use elelemer::configuration::{ApiConfig, ApiKey, UserApiConfig};
use elelemer::errors::{AppError, RunnerApiError, RunnerApiErrorKind, RunnerStreamError};
use elelemer::openai_api::{FinalStreamChunk, StreamChunk, Timings};
use elelemer::runners::llamacpp::{
    deserialise_with_empty_delta, LlamaCppRunner, LlamacppStreamChunk, LlamacppStreamChunkChoice,
    LlamacppStreamChunkChoiceDelta, LlamacppStreamChunkChoiceDeltaReasoningContent,
    LlamacppStreamChunkChoiceDeltaRoleContent, LlamacppStreamChunkObject, LlamacppTimings,
};
use elelemer::runners::ollama::{
    deserialise_ollama_open_api_helper, OllamaDeltaFields, OllamaRunner, OllamaStreamChunk,
    OllamaStreamChunkChoice, OllamaStreamChunkChoiceDelta, OllamaStreamChunkObject,
    OllamaStreamChunkUsage,
};
use elelemer::runners::{
    parse_open_ai_compatible_stream_chunk_string, update_stream_metadata, LlmRunnerParser,
    OpenAiCompatibleStreamChunkChoiceDeltaContent, ResponseStreamDisplayer, Runner,
    RunnerResponse, ServerEvent, StreamConsumer, StreamProgress,
};

fn content_of(chunk: &StreamChunk) -> Option<&str> {
    match chunk {
        StreamChunk::Content(c) => Some(c.as_str()),
        _ => None,
    }
}

fn llamacpp_object(
    finish_reason: Option<&str>,
    delta: Option<LlamacppStreamChunkChoiceDelta>,
) -> LlamacppStreamChunk {
    LlamacppStreamChunk::Object(LlamacppStreamChunkObject {
        choices: vec![LlamacppStreamChunkChoice {
            finish_reason: finish_reason.map(String::from),
            delta,
        }],
        model: String::from("qwen-3.5-35b-a3b"),
        timings: Some(LlamacppTimings { prompt_n: 29, predicted_n: 253 }),
    })
}

fn ollama_object(
    finish_reason: Option<&str>,
    delta: Option<OllamaStreamChunkChoiceDelta>,
) -> OllamaStreamChunk {
    OllamaStreamChunk::Object(OllamaStreamChunkObject {
        choices: vec![OllamaStreamChunkChoice { finish_reason: finish_reason.map(String::from), delta }],
        model: String::from("phi4-mini:3.8b"),
        usage: Some(OllamaStreamChunkUsage { prompt_tokens: 29, completion_tokens: 253 }),
    })
}

#[test]
fn string_chunks_end_the_stream_only_for_done() {
    assert!(matches!(
        parse_open_ai_compatible_stream_chunk_string(String::from("DONE")),
        StreamChunk::Final(FinalStreamChunk { model: None, timings: None })
    ));
    assert!(matches!(
        parse_open_ai_compatible_stream_chunk_string(String::from("[DONE]")),
        StreamChunk::Empty
    ));
}

#[test]
fn json_decoding_failure_ends_the_stream_only_for_done_message() {
    let runner = LlamaCppRunner::new();
    let err = serde_json::from_str::<u32>("[DONE]").unwrap_err();
    assert!(matches!(
        runner.parse_stream_chunk("[DONE]", Err(err)),
        Some(StreamChunk::Final(FinalStreamChunk { model: None, timings: None }))
    ));
    let err = serde_json::from_str::<u32>("{oops").unwrap_err();
    assert!(runner.parse_stream_chunk("{oops", Err(err)).is_none());
}

#[test]
fn llamacpp_chunks_convert_as_expected() {
    let reasoning = StreamChunk::from_llamacpp(llamacpp_object(
        None,
        Some(LlamacppStreamChunkChoiceDelta::ReasoningContent(
            LlamacppStreamChunkChoiceDeltaReasoningContent { reasoning_content: String::from("2") },
        )),
    ));
    assert!(matches!(&reasoning, StreamChunk::Reasoning(r) if r == "2"));

    let content = StreamChunk::from_llamacpp(llamacpp_object(
        None,
        Some(LlamacppStreamChunkChoiceDelta::Content(OpenAiCompatibleStreamChunkChoiceDeltaContent {
            content: String::from("**."),
        })),
    ));
    assert_eq!(content_of(&content), Some("**."));

    let stop = StreamChunk::from_llamacpp(llamacpp_object(Some("stop"), None));
    match stop {
        StreamChunk::Final(FinalStreamChunk { model, timings }) => {
            assert_eq!(model.as_deref(), Some("qwen-3.5-35b-a3b"));
            assert_eq!(timings, Some(Timings { prompt_n: 29, predicted_n: 253 }));
        }
        _ => panic!("expected the final chunk"),
    }

    let unfinished = StreamChunk::from_llamacpp(llamacpp_object(
        None,
        Some(LlamacppStreamChunkChoiceDelta::Empty {}),
    ));
    assert!(matches!(unfinished, StreamChunk::Final(FinalStreamChunk { model: None, timings: None })));

    let system = StreamChunk::from_llamacpp(llamacpp_object(
        None,
        Some(LlamacppStreamChunkChoiceDelta::RoleContent(LlamacppStreamChunkChoiceDeltaRoleContent {
            role: String::from("system"),
            content: Some(String::from("hello")),
        })),
    ));
    assert_eq!(content_of(&system), Some("hello"));

    let assistant = StreamChunk::from_llamacpp(llamacpp_object(
        None,
        Some(LlamacppStreamChunkChoiceDelta::RoleContent(LlamacppStreamChunkChoiceDeltaRoleContent {
            role: String::from("assistant"),
            content: Some(String::from("hello")),
        })),
    ));
    assert!(matches!(assistant, StreamChunk::Empty));

    let no_choices = StreamChunk::from_llamacpp(LlamacppStreamChunk::Object(LlamacppStreamChunkObject {
        choices: vec![],
        model: String::from("m"),
        timings: None,
    }));
    assert!(matches!(no_choices, StreamChunk::Empty));
}

#[test]
fn empty_llamacpp_delta_becomes_none() {
    let outcome: Result<_, ()> = deserialise_with_empty_delta(Ok(LlamacppStreamChunkChoiceDelta::Empty {}));
    assert!(matches!(outcome, Ok(None)));
    let outcome: Result<_, ()> = deserialise_with_empty_delta(Ok(LlamacppStreamChunkChoiceDelta::Content(
        OpenAiCompatibleStreamChunkChoiceDeltaContent { content: String::from("x") },
    )));
    assert!(matches!(outcome, Ok(Some(LlamacppStreamChunkChoiceDelta::Content(_)))));
    let outcome: Result<Option<LlamacppStreamChunkChoiceDelta>, &str> = deserialise_with_empty_delta(Err("bad"));
    assert!(matches!(outcome, Err("bad")));
}

#[test]
fn ollama_delta_fields_are_read_as_expected() {
    let fields = |content: Option<&str>, reasoning: Option<&str>, role: Option<&str>| -> Result<OllamaDeltaFields, ()> {
        Ok(OllamaDeltaFields {
            content: content.map(String::from),
            reasoning: reasoning.map(String::from),
            role: role.map(String::from),
        })
    };
    assert!(matches!(
        deserialise_ollama_open_api_helper(fields(Some(""), Some(" checking"), Some("assistant"))),
        Ok(Some(OllamaStreamChunkChoiceDelta::ReasoningContent(r))) if r.reasoning == " checking"
    ));
    assert!(matches!(
        deserialise_ollama_open_api_helper(fields(Some(" task"), None, Some("assistant"))),
        Ok(Some(OllamaStreamChunkChoiceDelta::Content(c))) if c.content == " task"
    ));
    assert!(matches!(
        deserialise_ollama_open_api_helper(fields(Some(" task"), Some(""), None)),
        Ok(Some(OllamaStreamChunkChoiceDelta::Content(c))) if c.content == " task"
    ));
    assert!(matches!(
        deserialise_ollama_open_api_helper(fields(None, None, None)),
        Ok(Some(OllamaStreamChunkChoiceDelta::Content(c))) if c.content.is_empty()
    ));
    assert!(matches!(
        deserialise_ollama_open_api_helper(fields(Some("x"), Some("y"), Some("user"))),
        Ok(None)
    ));
}

#[test]
fn ollama_chunks_convert_as_expected() {
    let stop = StreamChunk::from_ollama(ollama_object(Some("stop"), None));
    match stop {
        StreamChunk::Final(FinalStreamChunk { model, timings }) => {
            assert_eq!(model.as_deref(), Some("phi4-mini:3.8b"));
            assert_eq!(timings, Some(Timings { prompt_n: 29, predicted_n: 253 }));
        }
        _ => panic!("expected the final chunk"),
    }
    let usage_only = StreamChunk::from_ollama(OllamaStreamChunk::Object(OllamaStreamChunkObject {
        choices: vec![],
        model: String::from("qwen3-vl:8b"),
        usage: Some(OllamaStreamChunkUsage { prompt_tokens: 29, completion_tokens: 253 }),
    }));
    assert!(matches!(usage_only, StreamChunk::Empty));
    let done = StreamChunk::from_ollama(OllamaStreamChunk::String(String::from("DONE")));
    assert!(matches!(done, StreamChunk::Final(FinalStreamChunk { model: None, timings: None })));
}

#[test]
fn update_stream_metadata_reads_final_chunk() {
    let (model, prompt, predicted) = update_stream_metadata(StreamChunk::Final(FinalStreamChunk {
        model: Some(String::from("m")),
        timings: Some(Timings { prompt_n: 3, predicted_n: 4 }),
    }));
    assert_eq!(model.as_deref(), Some("m"));
    assert_eq!(prompt, Some(3));
    assert_eq!(predicted, Some(4));
    assert_eq!(update_stream_metadata(StreamChunk::Empty), (None, None, None));
}

#[test]
fn displayer_marks_reasoning_transitions() {
    let mut buffer: Vec<u8> = Vec::new();
    {
        let mut displayer = ResponseStreamDisplayer::new(&mut buffer);
        assert!(displayer.display_stream_chunk(&StreamChunk::Reasoning(String::from("think"))).is_ok());
        assert!(displayer.display_stream_chunk(&StreamChunk::Reasoning(String::from("ing"))).is_ok());
        assert!(displayer.display_stream_chunk(&StreamChunk::Content(String::from("Answer"))).is_ok());
        assert!(displayer.display_stream_chunk(&StreamChunk::Empty).is_ok());
        assert_eq!(
            displayer.complete_content(),
            "\nReasoning...\n\nthinking\n\n...reasoning completed.\n\n\nAnswer"
        );
    }
    assert_eq!(
        String::from_utf8_lossy(&buffer),
        "\x1b[34m\nReasoning...\n\n\x1b[0m\x1b[34mthink\x1b[0m\x1b[34ming\x1b[0m\x1b[34m\n\n...reasoning completed.\n\n\n\x1b[0m\x1b[39mAnswer\x1b[0m"
    );
}

#[test]
fn consumer_completes_on_final_chunk_and_collects_response() {
    let mut buffer: Vec<u8> = Vec::new();
    let mut consumer = StreamConsumer::new(&mut buffer);
    assert!(consumer.spinner_active());
    assert!(consumer.consume_chunk(StreamChunk::Content(String::from("Hi"))).is_ok());
    assert!(!consumer.spinner_active());
    assert!(!consumer.is_complete());
    assert!(consumer
        .consume_chunk(StreamChunk::Final(FinalStreamChunk {
            model: Some(String::from("gemma3:270m")),
            timings: Some(Timings { prompt_n: 5, predicted_n: 7 }),
        }))
        .is_ok());
    assert!(consumer.is_complete());
    assert!(consumer.finalise().is_ok());
    let response = RunnerResponse::from(consumer);
    assert_eq!(response.content, "Hi");
    assert_eq!(response.model, "gemma3:270m");
    assert_eq!(response.tokens_evaluated, 5);
    assert_eq!(response.tokens_predicted, 7);
    assert_eq!(String::from_utf8_lossy(&buffer), "\x1b[39mHi\x1b[0m\x1b[39m\n\x1b[0m");
}

#[test]
fn consumer_without_final_chunk_reports_unknown_model() {
    let mut buffer: Vec<u8> = Vec::new();
    let mut consumer = StreamConsumer::new(&mut buffer);
    assert!(consumer.stop_spinner());
    assert!(!consumer.stop_spinner());
    let response = RunnerResponse::from(consumer);
    assert_eq!(response.model, "Unknown model");
    assert_eq!(response.tokens_evaluated, 0);
    assert_eq!(response.tokens_predicted, 0);
}

struct BrokenSink;

impl std::io::Write for BrokenSink {
    fn write(&mut self, _buf: &[u8]) -> std::io::Result<usize> {
        Err(std::io::Error::new(std::io::ErrorKind::BrokenPipe, "closed"))
    }
    fn flush(&mut self) -> std::io::Result<()> {
        Ok(())
    }
}

#[test]
fn consumer_reports_output_failure_as_io_error() {
    let mut sink = BrokenSink;
    let mut consumer = StreamConsumer::new(&mut sink);
    match consumer.consume_chunk(StreamChunk::Content(String::from("Hi"))) {
        Err(AppError::IO(err)) => {
            assert_eq!(err.to_string(), "Io error while Displaying runner response to stdout")
        }
        _ => panic!("expected an output error"),
    }
}

#[test]
fn consumer_keeps_response_when_display_fails_and_accepts_empty_and_final_chunks() {
    let mut sink = BrokenSink;
    let mut consumer = StreamConsumer::new(&mut sink);
    assert!(consumer.consume_chunk(StreamChunk::Reasoning(String::from("Hmm"))).is_err());
    assert!(!consumer.spinner_active());
    assert!(consumer.consume_chunk(StreamChunk::Empty).is_ok());
    assert!(!consumer.is_complete());
    assert!(consumer
        .consume_chunk(StreamChunk::Final(FinalStreamChunk { model: None, timings: None }))
        .is_ok());
    assert!(consumer.is_complete());
    let response = RunnerResponse::from(consumer);
    assert_eq!(response.content, "");
}

fn api_config() -> ApiConfig {
    ApiConfig::try_from(UserApiConfig {
        base_url: String::from("https://ollama.example.com"),
        api_key: ApiKey::new(String::from("not-needed")),
        timeout_secs: 1,
    })
    .unwrap_or_else(|_| panic!("valid configuration"))
}

fn api_error(kind: RunnerApiErrorKind) -> RunnerApiError {
    RunnerApiError { kind, message: String::from("message"), details: String::from("Details") }
}

#[test]
fn runner_maps_stream_errors() {
    let config = api_config();
    let runner = Runner::new(LlamaCppRunner::new(), &config).unwrap_or_else(|_| panic!("runner"));
    assert_eq!(
        runner.get_openai_api_client().sse_client().url.as_str(),
        "https://ollama.example.com/v1/chat/completions"
    );

    let err = runner.map_stream_error(api_error(RunnerApiErrorKind::Transport));
    assert_eq!(err.to_string(), "Connection error while sending request to llama.cpp server");
    assert_eq!(
        err.help().unwrap(),
        "Check the llama.cpp server is running or try increasing read timeout by passing `--timeout 600`, for a 600-second timeout, for example."
    );

    let err = runner.map_stream_error(api_error(RunnerApiErrorKind::UnexpectedResponse { status: 404 }));
    assert_eq!(err.to_string(), "Response error while sending request to llama.cpp server");
    assert_eq!(
        err.help().unwrap(),
        "Check the requested model is available on the llama.cpp server"
    );

    let err = runner.map_stream_error(api_error(RunnerApiErrorKind::UnexpectedResponse { status: 500 }));
    assert!(matches!(err, RunnerStreamError::Runner(_)));
    assert_eq!(err.to_string(), "message");

    let err = runner.map_stream_error(api_error(RunnerApiErrorKind::Eof));
    assert!(matches!(err, RunnerStreamError::Runner(_)));

    let err = runner.map_stream_error(api_error(RunnerApiErrorKind::Other));
    match err {
        RunnerStreamError::Unexpected(e) => {
            assert_eq!(e.advice, "contact support");
            assert_eq!(e.context, "sending request to llama.cpp server");
            assert_eq!(e.cause, "Error streaming llama.cpp response: Details");
        }
        _ => panic!("expected an unexpected error"),
    }
}

#[test]
fn runner_parses_message_events_only() {
    let config = api_config();
    let runner = Runner::new(OllamaRunner::new(), &config).unwrap_or_else(|_| panic!("runner"));
    assert!(runner.parse_event(ServerEvent::Connected).is_none());
    assert!(runner.parse_event(ServerEvent::Comment(String::from("keep-alive"))).is_none());
    let chunk = runner.parse_event(ServerEvent::Event {
        data: String::from("\"DONE\""),
        decoded: Ok(OllamaStreamChunk::String(String::from("DONE"))),
    });
    assert!(matches!(chunk, Some(StreamChunk::Final(_))));
    assert_eq!(runner.parser().name(), "ollama");
}

#[test]
fn stream_step_continues_until_final_chunk_and_passes_on_stream_errors() {
    let mut buffer: Vec<u8> = Vec::new();
    let mut consumer = StreamConsumer::new(&mut buffer);
    assert!(matches!(consumer.handle_stream_item(Ok(None)), Ok(StreamProgress::Continue)));
    assert!(consumer.spinner_active());
    assert!(matches!(
        consumer.handle_stream_item(Ok(Some(StreamChunk::Content(String::from("Hi"))))),
        Ok(StreamProgress::Continue)
    ));
    assert!(!consumer.spinner_active());
    assert!(matches!(
        consumer.handle_stream_item(Err(RunnerStreamError::Runner(api_error(RunnerApiErrorKind::Eof)))),
        Err(AppError::RunnerStream(RunnerStreamError::Runner(_)))
    ));
    assert!(matches!(
        consumer.handle_stream_item(Ok(Some(StreamChunk::Final(FinalStreamChunk {
            model: Some(String::from("m")),
            timings: None,
        })))),
        Ok(StreamProgress::Complete)
    ));
    assert!(consumer.finalise().is_ok());
    let response = RunnerResponse::from(consumer);
    assert_eq!(response.content, "Hi");
    assert_eq!(response.model, "m");
}

#[test]
fn stream_step_reports_output_failure() {
    let mut sink = BrokenSink;
    let mut consumer = StreamConsumer::new(&mut sink);
    assert!(matches!(
        consumer.handle_stream_item(Ok(Some(StreamChunk::Content(String::from("Hi"))))),
        Err(AppError::IO(_))
    ));
}
