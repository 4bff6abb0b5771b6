use std::io::{ErrorKind, Read};

use elelemer::errors::RunnerStreamInitialisationError;
use elelemer::server_sent_events::{
    map_build_transport_error, map_header_parse_error, map_json_parse_error,
};

#[test]
fn map_header_parse_error_generates_expected_value() {
    // arrange
    let error = eventsource_client::Error::TimedOut;

    // act
    let outcome = map_header_parse_error(error);

    // assert
    let RunnerStreamInitialisationError::Unexpected(err) = outcome;
    assert_eq!(
        err.advice,
        "Unexpected error.  Please rerun in debug mode and provide log details when raising an issue."
    );
    assert_eq!(err.context, "parsing runner request headers");
    assert_eq!(err.cause, "timed out");
}

#[test]
fn map_build_transport_error_generates_expected_value() {
    // arrange
    let error = std::io::Error::other("sorry about this!");

    // act
    let outcome = map_build_transport_error(error);

    // assert
    let RunnerStreamInitialisationError::Unexpected(err) = outcome;
    assert_eq!(
        err.advice,
        "Unexpected error.  Please rerun in debug mode and provide log details when raising an issue."
    );
    assert_eq!(err.context, "initialising HTTPS transport client");
    assert_eq!(err.cause, "sorry about this!");
}

struct ErroringReader();

impl Read for ErroringReader {
    fn read(&mut self, _buf: &mut [u8]) -> std::io::Result<usize> {
        Err(std::io::Error::new(ErrorKind::TimedOut, "time's up!"))
    }
}

#[test]
fn map_json_parse_error_generates_expected_value() {
    // arrange
    let reader = ErroringReader();
    let error = serde_json::from_reader::<ErroringReader, String>(reader).unwrap_err();

    // act
    let outcome = map_json_parse_error(error);

    // assert
    let RunnerStreamInitialisationError::Unexpected(err) = outcome;
    assert_eq!(err.advice, "Unexpected error.  Please contact support.");
    assert_eq!(err.context, "serialising runner request body");
    assert_eq!(err.cause, "time's up!");
}
