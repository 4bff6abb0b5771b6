use vstd::prelude::*;
use std::io::Write;
use owo_colors::OwoColorize;

use crate::errors::IOError;
use vstd::utf8::encode_utf8;

verus! {

/// Declares the std I/O error type, which errors carry unchanged.
#[verifier::external_type_specification]
#[verifier::external_body]
pub struct ExIoError(std::io::Error);

/// Text style used when a chunk of a runner response is displayed.
#[derive(Debug, Clone, Copy, PartialEq, Eq, Structural)]
pub enum TextStyle {
    /// Default terminal foreground colour.
    Default,
    /// Blue foreground, for reasoning-mode output.
    Reasoning,
}

/// Text style for LLM reasoning-mode response output
pub const REASONING_TEXT_STYLE: TextStyle = TextStyle::Reasoning;

/// Default stdout text style
pub const DEFAULT_TEXT_STYLE: TextStyle = TextStyle::Default;

/// ANSI escape sequence that opens `style`.
pub open spec fn style_prefix(style: TextStyle) -> Seq<char> {
    match style {
        TextStyle::Default => "\x1b[39m"@,
        TextStyle::Reasoning => "\x1b[34m"@,
    }
}

/// `text` displayed in `style`: the style's opening escape sequence, the text, and the reset
/// sequence.
pub open spec fn styled(text: Seq<char>, style: TextStyle) -> Seq<char> {
    style_prefix(style) + text + "\x1b[0m"@
}

/// An error in writing the runner response to the output sink: the advice and context that
/// [`map_stdout_io_error`] gives.
pub open spec fn is_stdout_io_error(e: IOError) -> bool {
    &&& e.advice@ == "Contact support"@
    &&& e.context@ == "Displaying runner response to stdout"@
}

/// Map std::io::Error to [`IOError`]
pub fn map_stdout_io_error(err: std::io::Error) -> (res: IOError)
    ensures
        res.advice@ == "Contact support"@,
        res.context@ == "Displaying runner response to stdout"@,
        res.cause == err,
{
    IOError {
        advice: String::from_str("Contact support"),
        context: String::from_str("Displaying runner response to stdout"),
        cause: err,
    }
}

/// A call that a [`StdoutWriter`] hands to its output sink.
pub enum SinkCall {
    /// A formatted write (`write!`) of this text
    Write(Seq<char>),
    /// `std::io::Write::flush`
    Flush,
}

/// The text that `call` hands to the sink: the text of a write, nothing for a flush.
pub open spec fn call_text(call: SinkCall) -> Seq<char> {
    match call {
        SinkCall::Write(text) => text,
        SinkCall::Flush => Seq::empty(),
    }
}

/// The text that the write calls among `calls` hand to the sink, in order.
pub open spec fn written(calls: Seq<SinkCall>) -> Seq<char>
    decreases calls.len(),
{
    if calls.len() == 0 {
        Seq::empty()
    } else {
        written(calls.drop_last()) + call_text(calls.last())
    }
}

/// Struct for outputting LLM output to stdout
pub struct StdoutWriter<'a, W> {
    stdout_handle: &'a mut W,
    accepted: Ghost<Seq<char>>,
    calls: Ghost<Seq<SinkCall>>,
}

impl<'a, W> StdoutWriter<'a, W> {
    /// Text that the sink reported as written in full, in the order it was handed over.
    pub closed spec fn accepted(&self) -> Seq<char> {
        self.accepted@
    }

    /// The calls handed to the sink so far, in order, whatever each returned.
    pub closed spec fn calls(&self) -> Seq<SinkCall> {
        self.calls@
    }

    /// Create a new [`StdoutWriter`]
    pub fn new(writer: &'a mut W) -> (res: Self)
        ensures
            res.accepted() == Seq::<char>::empty(),
            res.calls() == Seq::<SinkCall>::empty(),
    {
        StdoutWriter { stdout_handle: writer, accepted: Ghost(Seq::empty()), calls: Ghost(Seq::empty()) }
    }
}

/// Writes `chunk` in `style` to the writer's sink with `write!` and the `owo_colors` style for
/// `style` (`Style::new().default_color()` or `Style::new().blue()`), as the formatted text
/// `styled(chunk@, style)`: both styles set a foreground colour only, so `owo_colors` writes the
/// colour's escape sequence, the chunk and the reset sequence. The call is recorded in the
/// writer's calls; its text is added to the accepted text when the write reports success, and
/// the accepted text is kept otherwise (both are ghost records of these calls, which nothing
/// else changes). Nothing is stated of the result: it depends on the sink.
#[verifier::external_body]
fn write_styled<'a, W: Write>(writer: &mut StdoutWriter<'a, W>, chunk: &str, style: TextStyle) -> (res:
    Result<(), std::io::Error>)
    ensures
        final(writer).calls() == old(writer).calls().push(SinkCall::Write(styled(chunk@, style))),
        res is Ok ==> final(writer).accepted() == old(writer).accepted() + styled(chunk@, style),
        res is Err ==> final(writer).accepted() == old(writer).accepted(),
{
    let owo_style = match style {
        TextStyle::Default => owo_colors::Style::new().default_color(),
        TextStyle::Reasoning => owo_colors::Style::new().blue(),
    };
    write!(writer.stdout_handle, "{}", chunk.style(owo_style))
}

/// As [`write_styled`], into an in-memory byte buffer: `Write` for `Vec<u8>` appends the
/// written bytes to the vector and never fails, so the write succeeds and the buffer gains the
/// UTF-8 encoding of the styled text.
#[verifier::external_body]
fn write_styled_to_buffer<'a>(writer: &mut StdoutWriter<'a, Vec<u8>>, chunk: &str, style: TextStyle) -> (res:
    Result<(), std::io::Error>)
    ensures
        res is Ok,
        final(writer).calls() == old(writer).calls().push(SinkCall::Write(styled(chunk@, style))),
        final(writer).accepted() == old(writer).accepted() + styled(chunk@, style),
        final(writer).buffer() == old(writer).buffer() + encode_utf8(styled(chunk@, style)),
{
    let owo_style = match style {
        TextStyle::Default => owo_colors::Style::new().default_color(),
        TextStyle::Reasoning => owo_colors::Style::new().blue(),
    };
    write!(writer.stdout_handle, "{}", chunk.style(owo_style))
}

/// Flushes an in-memory byte buffer: `Write::flush` for `Vec<u8>` does nothing and succeeds.
/// The call is recorded in the writer's calls.
#[verifier::external_body]
fn flush_buffer<'a>(writer: &mut StdoutWriter<'a, Vec<u8>>) -> (res: Result<(), std::io::Error>)
    ensures
        res is Ok,
        final(writer).calls() == old(writer).calls().push(SinkCall::Flush),
        final(writer).accepted() == old(writer).accepted(),
        final(writer).buffer() == old(writer).buffer(),
{
    writer.stdout_handle.flush()
}

impl<'a> StdoutWriter<'a, Vec<u8>> {
    /// The bytes in the in-memory buffer.
    pub closed spec fn buffer(&self) -> Seq<u8> {
        (*self.stdout_handle)@
    }
}

/// Flushes the writer's sink with `std::io::Write::flush`. The call is recorded in the writer's
/// calls and the accepted text is kept (both are ghost records of these calls). Nothing is stated
/// of the result: it depends on the sink.
#[verifier::external_body]
fn flush_sink<'a, W: Write>(writer: &mut StdoutWriter<'a, W>) -> (res: Result<(), std::io::Error>)
    ensures
        final(writer).calls() == old(writer).calls().push(SinkCall::Flush),
        final(writer).accepted() == old(writer).accepted(),
{
    writer.stdout_handle.flush()
}

impl<'a, W> StdoutWriter<'a, W> {
    /// Write chunk to the output sink, in `style` or, when there is none, the default style:
    /// hands the styled chunk to the sink in one write call, and does not flush.
    pub fn write_chunk(&mut self, chunk: &str, style: Option<TextStyle>) -> (res: Result<(), IOError>)
        where W: Write,
        ensures
            final(self).calls() == old(self).calls().push(
                SinkCall::Write(
                    styled(
                        chunk@,
                        match style {
                            Some(s) => s,
                            None => TextStyle::Default,
                        },
                    ),
                ),
            ),
            res is Ok ==> final(self).accepted() == old(self).accepted() + styled(
                chunk@,
                match style {
                    Some(s) => s,
                    None => TextStyle::Default,
                },
            ),
            res is Err ==> final(self).accepted() == old(self).accepted(),
            res matches Err(e) ==> is_stdout_io_error(e),
    {
        let style = match style {
            Some(s) => s,
            None => DEFAULT_TEXT_STYLE,
        };
        match write_styled(self, chunk, style) {
            Ok(()) => Ok(()),
            Err(err) => Err(map_stdout_io_error(err)),
        }
    }

    /// Flush the output sink, in one flush call.
    pub fn flush(&mut self) -> (res: Result<(), IOError>)
        where W: Write,
        ensures
            final(self).calls() == old(self).calls().push(SinkCall::Flush),
            final(self).accepted() == old(self).accepted(),
            res matches Err(e) ==> is_stdout_io_error(e),
    {
        match flush_sink(self) {
            Ok(()) => Ok(()),
            Err(err) => Err(map_stdout_io_error(err)),
        }
    }
}

} // verus!

verus! {

/// Logic for outputting LLM responses to an output sink.
///
/// Written as a trait to facilitate testing and wider use; [`StdoutWriter`] implements it over
/// the process's standard output and over an in-memory byte buffer.
pub trait OutputWriter {
    /// The calls handed to the sink so far, in order, whatever each returned.
    spec fn sink_calls(&self) -> Seq<SinkCall>;

    /// Text that the sink reported as written in full, in the order it was handed over.
    spec fn sink_accepted(&self) -> Seq<char>;

    /// Write chunk to an output sink, in `style` or, when there is none, the default style.
    fn write_chunk(&mut self, chunk: &str, style: Option<TextStyle>) -> (res: Result<(), IOError>)
        ensures
            final(self).sink_calls() == old(self).sink_calls().push(
                SinkCall::Write(
                    styled(
                        chunk@,
                        match style {
                            Some(s) => s,
                            None => TextStyle::Default,
                        },
                    ),
                ),
            ),
            res is Ok ==> final(self).sink_accepted() == old(self).sink_accepted() + styled(
                chunk@,
                match style {
                    Some(s) => s,
                    None => TextStyle::Default,
                },
            ),
            res is Err ==> final(self).sink_accepted() == old(self).sink_accepted(),
            res matches Err(e) ==> is_stdout_io_error(e),
    ;

    /// Flush the output sink
    fn flush(&mut self) -> (res: Result<(), IOError>)
        ensures
            final(self).sink_calls() == old(self).sink_calls().push(SinkCall::Flush),
            final(self).sink_accepted() == old(self).sink_accepted(),
            res matches Err(e) ==> is_stdout_io_error(e),
    ;
}

/// Declares the std handle to the process's standard output.
#[verifier::external_type_specification]
#[verifier::external_body]
pub struct ExStdout(std::io::Stdout);

impl<'a> OutputWriter for StdoutWriter<'a, std::io::Stdout> {
    open spec fn sink_calls(&self) -> Seq<SinkCall> {
        self.calls()
    }

    open spec fn sink_accepted(&self) -> Seq<char> {
        self.accepted()
    }

    fn write_chunk(&mut self, chunk: &str, style: Option<TextStyle>) -> (res: Result<(), IOError>) {
        StdoutWriter::write_chunk(self, chunk, style)
    }

    fn flush(&mut self) -> (res: Result<(), IOError>) {
        StdoutWriter::flush(self)
    }
}

impl<'a> OutputWriter for StdoutWriter<'a, Vec<u8>> {
    open spec fn sink_calls(&self) -> Seq<SinkCall> {
        self.calls()
    }

    open spec fn sink_accepted(&self) -> Seq<char> {
        self.accepted()
    }

    /// Writing into the buffer always succeeds, and the buffer gains the UTF-8 encoding of the
    /// styled chunk.
    fn write_chunk(&mut self, chunk: &str, style: Option<TextStyle>) -> (res: Result<(), IOError>)
        ensures
            res is Ok,
            final(self).buffer() == old(self).buffer() + encode_utf8(
                styled(
                    chunk@,
                    match style {
                        Some(s) => s,
                        None => TextStyle::Default,
                    },
                ),
            ),
    {
        let style = match style {
            Some(s) => s,
            None => DEFAULT_TEXT_STYLE,
        };
        match write_styled_to_buffer(self, chunk, style) {
            Ok(()) => Ok(()),
            Err(err) => Err(map_stdout_io_error(err)),
        }
    }

    /// Flushing the buffer always succeeds and leaves it as it is.
    fn flush(&mut self) -> (res: Result<(), IOError>)
        ensures
            res is Ok,
            final(self).buffer() == old(self).buffer(),
    {
        match flush_buffer(self) {
            Ok(()) => Ok(()),
            Err(err) => Err(map_stdout_io_error(err)),
        }
    }
}

} // verus!
