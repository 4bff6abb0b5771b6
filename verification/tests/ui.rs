use elelemer::ui::{map_stdout_io_error, OutputWriter, StdoutWriter, REASONING_TEXT_STYLE};

#[test]
fn handle_std_out_io_error_generates_expected_value() {
    // arrange
    let error = std::io::Error::new(std::io::ErrorKind::BrokenPipe, "Something went wrong!");

    // act
    let outcome = map_stdout_io_error(error);

    // assert
    assert_eq!(outcome.advice, "Contact support");
    assert_eq!(outcome.context, "Displaying runner response to stdout");
    assert_eq!(outcome.cause.kind(), std::io::ErrorKind::BrokenPipe);
    assert_eq!(outcome.cause.to_string(), "Something went wrong!");
}

#[test]
fn output_writer_write_chunk_generates_expected_output() {
    // arrange
    let mut buffer: Vec<u8> = Vec::new();
    let mut writer = StdoutWriter::new(&mut buffer);
    let chunk = "Good day to you!";

    // act
    assert!(writer.write_chunk(chunk, None).is_ok());

    // assert
    assert_eq!(String::from_utf8_lossy(&buffer), "\x1b[39mGood day to you!\x1b[0m");
}

#[test]
fn output_writer_write_chunk_generates_expected_output_with_formatting() {
    // arrange
    let mut buffer: Vec<u8> = Vec::new();
    let mut writer = StdoutWriter::new(&mut buffer);
    let chunk = "Hmmm... 🤔";

    // act
    assert!(writer.write_chunk(chunk, Some(REASONING_TEXT_STYLE)).is_ok());

    // assert
    assert_eq!(String::from_utf8_lossy(&buffer), "\x1b[34mHmmm... 🤔\x1b[0m");
}

fn write_reasoning_then_flush<T: OutputWriter>(writer: &mut T) {
    assert!(OutputWriter::write_chunk(writer, "thinking", Some(REASONING_TEXT_STYLE)).is_ok());
    assert!(OutputWriter::flush(writer).is_ok());
}

#[test]
fn output_writer_trait_writes_styled_chunks_to_a_buffer() {
    let mut buffer: Vec<u8> = Vec::new();
    {
        let mut writer = StdoutWriter::new(&mut buffer);
        write_reasoning_then_flush(&mut writer);
        assert!(OutputWriter::write_chunk(&mut writer, "done", None).is_ok());
    }
    assert_eq!(
        String::from_utf8_lossy(&buffer),
        "\x1b[34mthinking\x1b[0m\x1b[39mdone\x1b[0m"
    );
}

struct FailsAfterFirstWrite {
    writes: usize,
}

impl std::io::Write for FailsAfterFirstWrite {
    fn write(&mut self, buf: &[u8]) -> std::io::Result<usize> {
        self.writes += 1;
        if self.writes > 1 {
            Err(std::io::Error::new(std::io::ErrorKind::BrokenPipe, "closed"))
        } else {
            Ok(buf.len())
        }
    }
    fn flush(&mut self) -> std::io::Result<()> {
        Ok(())
    }
}

#[test]
fn write_chunk_reports_a_failure_after_the_first_write_call() {
    let mut sink = FailsAfterFirstWrite { writes: 0 };
    let mut writer = StdoutWriter::new(&mut sink);
    let outcome = writer.write_chunk("text", None);
    assert!(matches!(outcome, Err(ref e) if e.advice == "Contact support"));
}
