use elelemer::configuration::{ApiConfig, ApiKey, UserApiConfig};
use elelemer::net::WebUrl;
use elelemer::openai_api::{completions_url_from_base_url, OpenAIAPIClient, Role};

fn config(base_url: &str) -> ApiConfig {
    ApiConfig::try_from(UserApiConfig {
        base_url: String::from(base_url),
        api_key: ApiKey::new(String::from("abracadabra")),
        timeout_secs: 10,
    })
    .unwrap_or_else(|_| panic!("Should be valid configuration"))
}

#[test]
fn completions_url_from_base_url_returns_expected_url_for_base_with_empty_pathname() {
    // arrange
    let url = WebUrl::parse("https://example.com").expect("Should be a valid url");

    // act
    let outcome = completions_url_from_base_url(&url);

    // assert
    assert_eq!(outcome.as_str(), "https://example.com/v1/chat/completions");
}

#[test]
fn completions_url_from_base_url_returns_expected_url_for_base_with_pathname_as_slash() {
    // arrange
    let url = WebUrl::parse("https://example.com/").expect("Should be a valid url");

    // act
    let outcome = completions_url_from_base_url(&url);

    // assert
    assert_eq!(outcome.as_str(), "https://example.com/v1/chat/completions");
}

#[test]
fn completions_url_from_base_url_returns_expected_url_for_base_with_arbitrary_pathname() {
    // arrange
    let url = WebUrl::parse("https://example.com/path/subpath/").expect("Should be a valid url");

    // act
    let outcome = completions_url_from_base_url(&url);

    // assert
    assert_eq!(outcome.as_str(), "https://example.com/v1/chat/completions");
}

#[test]
fn open_ai_api_client_new_returns_expected_value() {
    // arrange
    let config = config("https://example.com");

    // act
    let outcome = OpenAIAPIClient::new(&config)
        .unwrap_or_else(|_| panic!("Should successfully generate a client"));

    // assert
    assert_eq!(outcome.api_key().expose_secret(), "abracadabra");
    assert_eq!(outcome.sse_client().url.as_str(), "https://example.com/v1/chat/completions");
    assert_eq!(outcome.sse_client().read_timeout_secs, 10);
}

#[test]
fn open_ai_api_client_build_request_returns_expected_value() {
    // arrange
    let config = config("https://example.com");
    let client = OpenAIAPIClient::new(&config)
        .unwrap_or_else(|_| panic!("Should successfully generate a client"));

    // act
    let outcome = client.build_request(
        "qxz-supreme-sota",
        "You are a helpful assistant",
        "Which countries use Fahrenheit for temperatures?",
    );

    // assert
    assert_eq!(outcome.model, "qxz-supreme-sota");
    assert_eq!(outcome.messages.len(), 2);
    assert_eq!(outcome.messages[0].role, Role::System);
    assert_eq!(outcome.messages[0].content, "You are a helpful assistant");
    assert_eq!(outcome.messages[1].role, Role::User);
    assert_eq!(outcome.messages[1].content, "Which countries use Fahrenheit for temperatures?");
    assert!(outcome.stream);
    assert!(outcome.stream_options.include_usage);
}

#[test]
fn web_url_parse_reports_parse_error_text() {
    assert_eq!(WebUrl::parse("https").err().unwrap(), "relative URL without a base");
}
