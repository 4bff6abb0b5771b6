use std::path::PathBuf;

use elelemer::cli::{Cli, Commands, RunArgs, RunnerCommands};
use elelemer::configuration::{
    extract_cli_overrides, find_config_file_path, get_config_path_from_dir,
    get_configuration_path, ApiConfig, ApiKey, AppSettings, RunnerSettings, SettingValue,
    UserApiConfig, UserAppSettings,
};
use elelemer::errors::AppError;

fn is_file(path: &PathBuf) -> bool {
    path.is_file()
}

fn run_args(base_url: Option<&str>, timeout: Option<u64>, system_prompt: Option<&str>) -> RunArgs {
    RunArgs {
        model: String::from("qxz-supreme-sota:2t"),
        prompt: String::from("How many colours are there?"),
        base_url: base_url.map(String::from),
        timeout,
        system_prompt: system_prompt.map(String::from),
    }
}

fn user_api_config(base_url: &str, api_key: &str, timeout_secs: u64) -> UserApiConfig {
    UserApiConfig {
        base_url: String::from(base_url),
        api_key: ApiKey::new(String::from(api_key)),
        timeout_secs,
    }
}

#[test]
fn get_configuration_path_returns_none_when_local_config_file_does_not_exist() {
    // arrange
    let dir = PathBuf::from("does-not-exist");

    // act
    let outcome = get_configuration_path(dir, is_file);

    // assert
    assert!(outcome.is_none());
}

#[test]
fn get_config_path_from_dir_returns_path() {
    // arrange
    let temp_dir = PathBuf::from("/tmp/elelemer-settings");
    let config_path = temp_dir.join("configuration.toml");
    let expected = config_path.clone();

    // act
    let outcome = get_config_path_from_dir(temp_dir, move |path: &PathBuf| *path == expected);

    // assert
    let outcome_path = outcome.expect("Expected path to be some");
    assert_eq!(outcome_path, config_path);
}

#[test]
fn find_config_file_path_prefers_explicit_path_and_skips_searches() {
    let explicit = PathBuf::from("/tmp/explicit.toml");
    let outcome = find_config_file_path(
        Some(explicit.clone()),
        || panic!("current directory should not be searched"),
        || panic!("configuration directory should not be searched"),
    );
    assert_eq!(outcome, Some(explicit));
}

#[test]
fn find_config_file_path_falls_back_in_order() {
    let outcome = find_config_file_path(
        None,
        || Some(PathBuf::from("cwd/configuration.toml")),
        || panic!("configuration directory should not be searched"),
    );
    assert_eq!(outcome, Some(PathBuf::from("cwd/configuration.toml")));

    let outcome = find_config_file_path(None, || None, || Some(PathBuf::from("dir/configuration.toml")));
    assert_eq!(outcome, Some(PathBuf::from("dir/configuration.toml")));

    let outcome = find_config_file_path(None, || None, || None);
    assert_eq!(outcome, None);
}

#[test]
fn app_config_try_from_user_api_config_returns_error_for_invalid_api_key() {
    // assert
    let user_config = user_api_config("https://example.com", "my\0secret", 12);

    // act
    let outcome = match ApiConfig::try_from(user_config) {
        Err(err) => err,
        Ok(_) => panic!("expected an error"),
    };

    // assert
    assert_eq!(&outcome.to_string(), "InvalidHeaderValue");
    let help = outcome
        .help()
        .map(|val| format!("{val}"))
        .expect("help method should be defined");
    assert_eq!(
        &help,
        "Check server API key value is correct; current value does not seem right."
    );
}

#[test]
fn api_config_try_from_rejects_keys_with_non_visible_characters() {
    assert!(ApiConfig::try_from(user_api_config("https://example.com", "a\tb", 1)).is_err());
    assert!(ApiConfig::try_from(user_api_config("https://example.com", "clé", 1)).is_err());
    assert!(ApiConfig::try_from(user_api_config("https://example.com", "del\u{7f}", 1)).is_err());
    assert!(ApiConfig::try_from(user_api_config("https://example.com", " !~key", 1)).is_ok());
    let outcome = match ApiConfig::try_from(user_api_config("https//bad", "a\tb", 1)) {
        Err(err) => err,
        Ok(_) => panic!("expected an error"),
    };
    assert_eq!(outcome.to_string(), "InvalidHeaderValue");
}

#[test]
fn api_config_try_from_reports_invalid_url() {
    let outcome = match ApiConfig::try_from(user_api_config("https//example.com", "key", 10)) {
        Err(err) => err,
        Ok(_) => panic!("expected an error"),
    };
    assert_eq!(outcome.to_string(), "Invalid URL: relative URL without a base");
    assert_eq!(
        outcome.help().unwrap(),
        "Check server API base url is correct; `https//example.com` does not seem right."
    );
}

#[test]
fn api_config_try_from_keeps_values() {
    let config = ApiConfig::try_from(user_api_config("http://localhost:8080", "abracadabra", 2400)).unwrap();
    assert_eq!(config.base_url().as_str(), "http://localhost:8080/");
    assert_eq!(config.api_key().expose_secret(), "abracadabra");
    assert_eq!(config.timeout(), 2400);
}

#[test]
fn extract_cli_overrides_lists_given_options_for_selected_runner() {
    let cli = Cli {
        command: Commands::Ollama(RunnerCommands::Run(run_args(
            Some("http://example.com:11434"),
            Some(3),
            Some("Just try your best"),
        ))),
        config: None,
    };
    let overrides = extract_cli_overrides(&cli).unwrap_or_else(|_| panic!("should succeed"));
    assert_eq!(overrides.len(), 3);
    assert_eq!(overrides[0].0, "ollama.base_url");
    assert!(matches!(&overrides[0].1, SettingValue::Text(v) if v == "http://example.com:11434"));
    assert_eq!(overrides[1].0, "ollama.timeout_secs");
    assert!(matches!(overrides[1].1, SettingValue::Integer(3)));
    assert_eq!(overrides[2].0, "system_prompt");
    assert!(matches!(&overrides[2].1, SettingValue::Text(v) if v == "Just try your best"));

    let cli = Cli {
        command: Commands::Llamacpp(RunnerCommands::Run(run_args(None, Some(10), None))),
        config: None,
    };
    let overrides = extract_cli_overrides(&cli).unwrap_or_else(|_| panic!("should succeed"));
    assert_eq!(overrides.len(), 1);
    assert_eq!(overrides[0].0, "llamacpp.timeout_secs");
    assert!(matches!(overrides[0].1, SettingValue::Integer(10)));

    let cli = Cli {
        command: Commands::Llamacpp(RunnerCommands::Run(run_args(None, None, None))),
        config: None,
    };
    assert!(extract_cli_overrides(&cli).unwrap_or_else(|_| panic!("should succeed")).is_empty());
}

#[test]
fn default_settings_lists_defaults() {
    let defaults = AppSettings::default_settings();
    let keys: Vec<&str> = defaults.iter().map(|(k, _)| k.as_str()).collect();
    assert_eq!(
        keys,
        vec![
            "llamacpp.base_url",
            "llamacpp.api_key",
            "llamacpp.timeout_secs",
            "ollama.base_url",
            "ollama.api_key",
            "ollama.timeout_secs",
            "system_prompt"
        ]
    );
    assert!(matches!(&defaults[0].1, SettingValue::Text(v) if v == "http://localhost:8080"));
    assert!(matches!(&defaults[1].1, SettingValue::Text(v) if v == "llama.cpp"));
    assert!(matches!(defaults[2].1, SettingValue::Integer(3600)));
    assert!(matches!(&defaults[3].1, SettingValue::Text(v) if v == "http://localhost:11434"));
    assert!(matches!(&defaults[4].1, SettingValue::Text(v) if v == "ollama"));
    assert!(matches!(defaults[5].1, SettingValue::Integer(3600)));
    assert!(matches!(&defaults[6].1, SettingValue::Text(v) if v == "You are a helpful assistant"));
}

fn user_settings(llamacpp_url: &str, ollama_url: &str) -> UserAppSettings {
    UserAppSettings {
        llamacpp: user_api_config(llamacpp_url, "not-required", 2400),
        ollama: user_api_config(ollama_url, "not-required", 1200),
        system_prompt: String::from("You are a helpful assistant"),
    }
}

#[test]
fn from_user_settings_selects_ollama_runner() {
    let cli = Cli {
        command: Commands::Ollama(RunnerCommands::Run(RunArgs {
            model: "gpt-oss:20b".to_owned(),
            prompt: "How far is the moon from planet Earth?".to_owned(),
            base_url: None,
            system_prompt: None,
            timeout: None,
        })),
        config: None,
    };
    let settings = AppSettings::from_user_settings(cli, user_settings("http://localhost:8080", "http://localhost:11434"))
        .unwrap_or_else(|_| panic!("should succeed"));
    match settings.runner {
        RunnerSettings::Ollama(config) => {
            assert_eq!(config.base_url().as_str(), "http://localhost:11434/");
            assert_eq!(config.timeout(), 1200);
        }
        RunnerSettings::Llamacpp(_) => panic!("expected Ollama settings"),
    }
    assert_eq!(settings.model, "gpt-oss:20b");
    assert_eq!(settings.prompt, "How far is the moon from planet Earth?");
    assert_eq!(settings.system_prompt, "You are a helpful assistant");
}

#[test]
fn from_user_settings_reports_invalid_url_of_selected_runner_only() {
    let cli = Cli {
        command: Commands::Llamacpp(RunnerCommands::Run(run_args(None, None, None))),
        config: None,
    };
    let outcome = AppSettings::from_user_settings(cli, user_settings("https//example.com", "https"));
    match outcome {
        Err(AppError::Config(err)) => {
            assert_eq!(err.to_string(), "Invalid URL: relative URL without a base")
        }
        _ => panic!("expected a configuration error"),
    }

    let cli = Cli {
        command: Commands::Llamacpp(RunnerCommands::Run(run_args(None, None, None))),
        config: None,
    };
    assert!(AppSettings::from_user_settings(cli, user_settings("http://localhost:8080", "https")).is_ok());
}
