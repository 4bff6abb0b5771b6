//! App setting defaults, command line overrides, and runner settings built from the loaded user
//! configuration.

/// Configuration file location
pub mod config_path;

use vstd::prelude::*;
use secrecy::ExposeSecret;

use crate::cli::{Cli, Commands, RunArgs, RunnerCommands};
use crate::errors::{prefixed, AppError, ConfigError};
use crate::net::{header_value_is_valid, is_header_value, is_header_value_char, url_parse_outcome, WebUrl};

pub use crate::configuration::config_path::{
    find_config_file_path, get_config_path_from_dir, get_configuration_path,
};

verus! {

/// Default model system prompt
pub const DEFAULT_SYSTEM_PROMPT: &'static str = "You are a helpful assistant";

/// Default read timeout, in seconds
pub const DEFAULT_READ_TIMEOUT: u64 = 3600;

/// Default Ollama API base URL
pub const DEFAULT_OLLAMA_BASE_URL: &'static str = "http://localhost:11434";

/// Default Ollama API key
pub const DEFAULT_OLLAMA_API_KEY: &'static str = "ollama";

/// Default llama.cpp API base URL
pub const DEFAULT_LLAMACPP_BASE_URL: &'static str = "http://localhost:8080";

/// Default llama.cpp API key
pub const DEFAULT_LLAMACPP_API_KEY: &'static str = "llama.cpp";

/// Holds a `secrecy::SecretString`. Verus refuses a declaration of `secrecy::SecretBox` (its
/// parameter is bounded by an outside trait), so the secret is kept in a private field of this
/// opaque struct; [`ApiKey`] models its text.
#[verifier::external_body]
pub struct SecretHolder {
    secret: secrecy::SecretString,
}

/// Runner API key, held in a `secrecy::SecretString` so that it is zeroised on drop and kept
/// out of debug output.
pub struct ApiKey {
    secret: SecretHolder,
    text: Ghost<Seq<char>>,
}

impl View for ApiKey {
    type V = Seq<char>;

    /// The key's text.
    closed spec fn view(&self) -> Seq<char> {
        self.text@
    }
}

/// Moves `key` into a `secrecy::SecretString` (`SecretString::from`); the secret holds `key`.
#[verifier::external_body]
fn hold_secret(key: String) -> (res: ApiKey)
    ensures
        res@ == key@,
{
    let text = Ghost(key@);
    ApiKey { secret: SecretHolder { secret: secrecy::SecretString::from(key) }, text }
}

/// The secret's text, from `secrecy::ExposeSecret::expose_secret`: the text the key was made
/// from.
#[verifier::external_body]
fn exposed_secret(key: &ApiKey) -> (res: &str)
    ensures
        res@ == key@,
{
    key.secret.secret.expose_secret()
}

impl ApiKey {
    /// Keeps `key` as a secret.
    pub fn new(key: String) -> (res: ApiKey)
        ensures
            res@ == key@,
    {
        hold_secret(key)
    }

    /// The key's text.
    pub fn expose_secret(&self) -> (res: &str)
        ensures
            res@ == self@,
    {
        exposed_secret(self)
    }
}

/// Runner API configuration
///
/// Used for reading user config.  [`ApiConfig`] is used internally and validates fields.  Two
/// separate struct approach, allows the user to have a configuration, with an invalid url for
/// example, if they are not actually using that particular API;  saving them having meticulously
/// to generate configurations for APIs they do not currently intend to use.
pub struct UserApiConfig {
    /// Runner API base url
    pub base_url: String,
    /// Runer API key
    pub api_key: ApiKey,
    /// Read timeout, awaiting a runner response
    pub timeout_secs: u64,
}

/// Runner API configuration
///
/// Used internally `base_url` will be a valid URL and `api_key` will be valid as a password in a
/// bearer authorisation HTTP header.
pub struct ApiConfig {
    base_url: WebUrl,
    api_key: ApiKey,
    timeout_secs: u64,
}

/// Advice given when the API key cannot stand in an authorisation header.
pub open spec fn invalid_api_key_advice() -> Seq<char> {
    "Check server API key value is correct; current value does not seem right."@
}

/// Advice given when the base URL does not parse.
pub open spec fn invalid_base_url_advice(base_url: Seq<char>) -> Seq<char> {
    "Check server API base url is correct; `"@ + base_url + "` does not seem right."@
}

/// Bearer authorisation header value for `api_key`.
pub open spec fn bearer(api_key: Seq<char>) -> Seq<char> {
    "Bearer "@ + api_key
}

/// Whether an API key may hold `c`: a character in the range 32 - 127, both included.
pub open spec fn is_api_key_char(c: char) -> bool {
    32 <= (c as u32) && (c as u32) <= 127
}

/// Whether every character of `key` is one an API key may hold.
pub open spec fn is_api_key_text(key: Seq<char>) -> bool {
    forall|i: int| 0 <= i < key.len() ==> #[trigger] is_api_key_char(key[i])
}

/// Whether every character of `key` lies in the range 32 - 127, both included.
fn api_key_chars_in_range(key: &str) -> (res: bool)
    ensures
        res == is_api_key_text(key@),
{
    broadcast use vstd::string::axiom_spec_iter;
    for c in it: key.chars()
        invariant
            it.seq() == key@,
            forall|j: int| 0 <= j < it.index() ==> #[trigger] is_api_key_char(key@[j]),
    {
        let code: u32 = c as u32;
        if code < 32 || code > 127 {
            assert(!is_api_key_char(key@[it.index() as int]));
            return false;
        }
    }
    true
}

/// What validating a user runner configuration with base URL `base_url` and API key `api_key`
/// gives: the serialisation of the parsed base URL, or the error's advice and detail.
pub open spec fn api_config_outcome(base_url: Seq<char>, api_key: Seq<char>) -> Result<
    Seq<char>,
    (Seq<char>, Seq<char>),
> {
    if !is_api_key_text(api_key) || !is_header_value(bearer(api_key)) {
        Err((invalid_api_key_advice(), "InvalidHeaderValue"@))
    } else {
        match url_parse_outcome(base_url) {
            Ok(url) => Ok(url),
            Err(message) => Err((invalid_base_url_advice(base_url), "Invalid URL: "@ + message)),
        }
    }
}

impl ApiConfig {
    /// This configuration is the one validated from `user`, whose base URL parsed to `url`.
    pub open spec fn matches_user(&self, user: UserApiConfig, url: Seq<char>) -> bool {
        &&& self.spec_base_url() == url
        &&& self.spec_api_key() == user.api_key@
        &&& self.spec_timeout_secs() == user.timeout_secs
        &&& self.wf()
    }

    /// Serialisation of the base URL.
    pub closed spec fn spec_base_url(&self) -> Seq<char> {
        self.base_url@
    }

    /// Text of the API key.
    pub closed spec fn spec_api_key(&self) -> Seq<char> {
        self.api_key@
    }

    /// Read timeout in seconds.
    pub closed spec fn spec_timeout_secs(&self) -> u64 {
        self.timeout_secs
    }

    /// The bearer authorisation header value for the key is a valid header value.
    pub open spec fn wf(&self) -> bool {
        is_header_value(bearer(self.spec_api_key()))
    }

    /// OpenAI-compatible API API key
    pub fn api_key(&self) -> (res: &ApiKey)
        ensures
            res@ == self.spec_api_key(),
    {
        &self.api_key
    }

    /// OpenAI-compatible API base url key
    pub fn base_url(&self) -> (res: &WebUrl)
        ensures
            res@ == self.spec_base_url(),
    {
        &self.base_url
    }

    /// OpenAI-compatible API read timeout, in seconds
    pub fn timeout(&self) -> (res: u64)
        ensures
            res == self.spec_timeout_secs(),
    {
        self.timeout_secs
    }

    /// Validates a user runner configuration.
    ///
    /// # Errors
    /// Errors if:
    /// - the API key holds a non-visible ASCII character: a character outside the range 32 - 127
    ///   (a tab or a non-ASCII character, for example), or a character for which `"Bearer "`
    ///   followed by the key is not a valid HTTP header value (DEL); or
    /// - the base URL does not parse.
    pub fn try_from(value: UserApiConfig) -> (res: Result<ApiConfig, ConfigError>)
        ensures
            match api_config_outcome(value.base_url@, value.api_key@) {
                Ok(url) => (res matches Ok(config) && config.matches_user(value, url)),
                Err((advice, detail)) => (res matches Err(e) && e.advice@ == advice && e.detail@
                    == detail),
            },
    {
        let key = value.api_key.expose_secret();
        let header = prefixed("Bearer ", key);
        if !api_key_chars_in_range(key) || !header_value_is_valid(header.as_str()) {
            return Err(
                ConfigError {
                    advice: String::from_str(
                        "Check server API key value is correct; current value does not seem right.",
                    ),
                    detail: String::from_str("InvalidHeaderValue"),
                },
            );
        }
        match WebUrl::parse(value.base_url.as_str()) {
            Ok(base_url) => Ok(
                ApiConfig { base_url, api_key: value.api_key, timeout_secs: value.timeout_secs },
            ),
            Err(message) => {
                let mut advice = prefixed(
                    "Check server API base url is correct; `",
                    value.base_url.as_str(),
                );
                advice.append("` does not seem right.");
                Err(
                    ConfigError {
                        advice,
                        detail: prefixed("Invalid URL: ", message.as_str()),
                    },
                )
            },
        }
    }
}

/// A setting value: text or an unsigned integer.
#[derive(Debug)]
pub enum SettingValue {
    /// Text setting
    Text(String),
    /// Unsigned integer setting
    Integer(u64),
}

/// Model of a [`SettingValue`].
pub enum SettingValueView {
    /// Text setting
    Text(Seq<char>),
    /// Unsigned integer setting
    Integer(u64),
}

impl View for SettingValue {
    type V = SettingValueView;

    open spec fn view(&self) -> SettingValueView {
        match self {
            SettingValue::Text(s) => SettingValueView::Text(s@),
            SettingValue::Integer(n) => SettingValueView::Integer(*n),
        }
    }
}

/// Model of a list of settings: each setting's path and value.
pub open spec fn settings_view(settings: Seq<(String, SettingValue)>) -> Seq<(Seq<char>, SettingValueView)> {
    settings.map_values(|p: (String, SettingValue)| (p.0@, p.1@))
}

/// The one-entry list `(path, Text(value))` when `value` is given, else the empty list.
pub open spec fn text_override(path: Seq<char>, value: Option<String>) -> Seq<(Seq<char>, SettingValueView)> {
    match value {
        Some(v) => seq![(path, SettingValueView::Text(v@))],
        None => seq![],
    }
}

/// The one-entry list `(path, Integer(value))` when `value` is given, else the empty list.
pub open spec fn integer_override(path: Seq<char>, value: Option<u64>) -> Seq<(Seq<char>, SettingValueView)> {
    match value {
        Some(v) => seq![(path, SettingValueView::Integer(v))],
        None => seq![],
    }
}

/// The settings that command line arguments override, in the order they are applied: the
/// runner's base URL and timeout, when given, then the system prompt, when given.
pub open spec fn spec_cli_overrides(command: Commands) -> Seq<(Seq<char>, SettingValueView)> {
    match command {
        Commands::Ollama(RunnerCommands::Run(args)) => text_override(
            "ollama.base_url"@,
            args.base_url,
        ) + integer_override("ollama.timeout_secs"@, args.timeout) + text_override(
            "system_prompt"@,
            args.system_prompt,
        ),
        Commands::Llamacpp(RunnerCommands::Run(args)) => text_override(
            "llamacpp.base_url"@,
            args.base_url,
        ) + integer_override("llamacpp.timeout_secs"@, args.timeout) + text_override(
            "system_prompt"@,
            args.system_prompt,
        ),
    }
}

/// Appends `(path, Text(value))` to `result` when `value` is given.
fn push_text_override(result: &mut Vec<(String, SettingValue)>, path: &str, value: &Option<String>)
    ensures
        settings_view(final(result)@) == settings_view(old(result)@) + text_override(path@, *value),
{
    let ghost before = settings_view(result@);
    if let Some(v) = value {
        result.push((String::from_str(path), SettingValue::Text(v.clone())));
    }
    assert(settings_view(result@) =~= before + text_override(path@, *value));
}

/// Appends `(path, Integer(value))` to `result` when `value` is given.
fn push_integer_override(result: &mut Vec<(String, SettingValue)>, path: &str, value: Option<u64>)
    ensures
        settings_view(final(result)@) == settings_view(old(result)@) + integer_override(path@, value),
{
    let ghost before = settings_view(result@);
    if let Some(v) = value {
        result.push((String::from_str(path), SettingValue::Integer(v)));
    }
    assert(settings_view(result@) =~= before + integer_override(path@, value));
}

/// The settings that the command line arguments override, as `spec_cli_overrides` lists them.
pub fn extract_cli_overrides(cli_options: &Cli) -> (res: Result<Vec<(String, SettingValue)>, AppError>)
    ensures
        res matches Ok(v) && settings_view(v@) == spec_cli_overrides(cli_options.command),
{
    let mut result: Vec<(String, SettingValue)> = Vec::new();
    assert(settings_view(result@) =~= Seq::empty());
    match &cli_options.command {
        Commands::Ollama(RunnerCommands::Run(RunArgs { base_url, timeout, system_prompt, .. })) => {
            push_text_override(&mut result, "ollama.base_url", base_url);
            push_integer_override(&mut result, "ollama.timeout_secs", *timeout);
            push_text_override(&mut result, "system_prompt", system_prompt);
        },
        Commands::Llamacpp(RunnerCommands::Run(RunArgs { base_url, timeout, system_prompt, .. })) => {
            push_text_override(&mut result, "llamacpp.base_url", base_url);
            push_integer_override(&mut result, "llamacpp.timeout_secs", *timeout);
            push_text_override(&mut result, "system_prompt", system_prompt);
        },
    }
    Ok(result)
}

/// App and runner configuration
pub struct UserAppSettings {
    /// LLamacpp runner configuration
    pub llamacpp: UserApiConfig,
    /// Ollama runner configuration
    pub ollama: UserApiConfig,
    /// Model system prompt override
    pub system_prompt: String,
}

/// Chat completion parameters and API connection settings for runners
pub enum RunnerSettings {
    /// Runner settings for the Llama.cpp runner
    Llamacpp(ApiConfig),
    /// Runner settings for the Ollama runner
    Ollama(ApiConfig),
}

/// App and runner configuration
pub struct AppSettings {
    /// Runner configuration
    pub runner: RunnerSettings,
    /// Model name or alias
    pub model: String,
    /// Runner prompt
    pub prompt: String,
    /// Model system prompt override
    pub system_prompt: String,
}

/// The default settings, in the order they are applied: each runner's base URL, API key and
/// read timeout, then the system prompt.
pub open spec fn spec_default_settings() -> Seq<(Seq<char>, SettingValueView)> {
    seq![
        ("llamacpp.base_url"@, SettingValueView::Text(DEFAULT_LLAMACPP_BASE_URL@)),
        ("llamacpp.api_key"@, SettingValueView::Text(DEFAULT_LLAMACPP_API_KEY@)),
        ("llamacpp.timeout_secs"@, SettingValueView::Integer(DEFAULT_READ_TIMEOUT)),
        ("ollama.base_url"@, SettingValueView::Text(DEFAULT_OLLAMA_BASE_URL@)),
        ("ollama.api_key"@, SettingValueView::Text(DEFAULT_OLLAMA_API_KEY@)),
        ("ollama.timeout_secs"@, SettingValueView::Integer(DEFAULT_READ_TIMEOUT)),
        ("system_prompt"@, SettingValueView::Text(DEFAULT_SYSTEM_PROMPT@)),
    ]
}

/// Whether `key` names one of the settings that have a default.
pub open spec fn has_default(key: Seq<char>) -> bool {
    exists|j: int| 0 <= j < spec_default_settings().len() && #[trigger] spec_default_settings()[j].0 == key
}

/// Law: an API key made only of characters in the range 32 - 126 (visible ASCII characters
/// and space) never makes validation fail: the outcome is the base URL's parse outcome alone,
/// whatever the key. The default keys "llama.cpp" and "ollama" are such keys.
pub proof fn law_printable_api_keys_are_accepted(base_url: Seq<char>, api_key: Seq<char>)
    requires
        forall|i: int| 0 <= i < api_key.len() ==> 32 <= (#[trigger] api_key[i] as u32) <= 126,
    ensures
        api_config_outcome(base_url, api_key) == match url_parse_outcome(base_url) {
            Ok(url) => Ok(url),
            Err(message) => Err((invalid_base_url_advice(base_url), "Invalid URL: "@ + message)),
        },
{
    reveal_strlit("Bearer ");
    assert(is_api_key_text(api_key)) by {
        assert forall|i: int| 0 <= i < api_key.len() implies #[trigger] is_api_key_char(
            api_key[i],
        ) by {
            assert(32 <= (api_key[i] as u32) <= 126);
        }
    }
    let b = bearer(api_key);
    assert(is_header_value(b)) by {
        assert forall|i: int| 0 <= i < b.len() implies #[trigger] is_header_value_char(b[i]) by {
            if i >= 7 {
                assert(b[i] == api_key[i - 7]);
                assert(32 <= (api_key[i - 7] as u32) <= 126);
            }
        }
    }
}

/// Law: every setting that the command line overrides belongs to the selected runner's own
/// section, or is the system prompt; and each option given on the command line overrides its
/// setting with the given value: for the llama.cpp command the base URL and read timeout
/// override "llamacpp.base_url" and "llamacpp.timeout_secs", for the Ollama command
/// "ollama.base_url" and "ollama.timeout_secs", and a system prompt overrides "system_prompt".
pub proof fn law_overrides_target_selected_runner(args: RunArgs)
    ensures
        ({
            let o = spec_cli_overrides(Commands::Llamacpp(RunnerCommands::Run(args)));
            &&& forall|i: int|
                0 <= i < o.len() ==> (#[trigger] o[i]).0 == "llamacpp.base_url"@ || o[i].0
                    == "llamacpp.timeout_secs"@ || o[i].0 == "system_prompt"@
            &&& args.base_url matches Some(u) ==> o.contains(
                ("llamacpp.base_url"@, SettingValueView::Text(u@)),
            )
            &&& args.timeout matches Some(t) ==> o.contains(
                ("llamacpp.timeout_secs"@, SettingValueView::Integer(t)),
            )
            &&& args.system_prompt matches Some(p) ==> o.contains(
                ("system_prompt"@, SettingValueView::Text(p@)),
            )
        }),
        ({
            let o = spec_cli_overrides(Commands::Ollama(RunnerCommands::Run(args)));
            &&& forall|i: int|
                0 <= i < o.len() ==> (#[trigger] o[i]).0 == "ollama.base_url"@ || o[i].0
                    == "ollama.timeout_secs"@ || o[i].0 == "system_prompt"@
            &&& args.base_url matches Some(u) ==> o.contains(
                ("ollama.base_url"@, SettingValueView::Text(u@)),
            )
            &&& args.timeout matches Some(t) ==> o.contains(
                ("ollama.timeout_secs"@, SettingValueView::Integer(t)),
            )
            &&& args.system_prompt matches Some(p) ==> o.contains(
                ("system_prompt"@, SettingValueView::Text(p@)),
            )
        }),
{
    lemma_overrides_of_section(args, "llamacpp.base_url"@, "llamacpp.timeout_secs"@);
    lemma_overrides_of_section(args, "ollama.base_url"@, "ollama.timeout_secs"@);
    assert(spec_cli_overrides(Commands::Llamacpp(RunnerCommands::Run(args))) == text_override(
        "llamacpp.base_url"@,
        args.base_url,
    ) + integer_override("llamacpp.timeout_secs"@, args.timeout) + text_override(
        "system_prompt"@,
        args.system_prompt,
    ));
    assert(spec_cli_overrides(Commands::Ollama(RunnerCommands::Run(args))) == text_override(
        "ollama.base_url"@,
        args.base_url,
    ) + integer_override("ollama.timeout_secs"@, args.timeout) + text_override(
        "system_prompt"@,
        args.system_prompt,
    ));
}

/// The base URL, timeout and system prompt overrides under the paths `url_path` and
/// `timeout_path` name only those paths and "system_prompt", and hold each given value.
proof fn lemma_overrides_of_section(args: RunArgs, url_path: Seq<char>, timeout_path: Seq<char>)
    ensures
        ({
            let o = text_override(url_path, args.base_url) + integer_override(
                timeout_path,
                args.timeout,
            ) + text_override("system_prompt"@, args.system_prompt);
            &&& forall|i: int|
                0 <= i < o.len() ==> (#[trigger] o[i]).0 == url_path || o[i].0 == timeout_path
                    || o[i].0 == "system_prompt"@
            &&& args.base_url matches Some(u) ==> o.contains((url_path, SettingValueView::Text(u@)))
            &&& args.timeout matches Some(t) ==> o.contains(
                (timeout_path, SettingValueView::Integer(t)),
            )
            &&& args.system_prompt matches Some(p) ==> o.contains(
                ("system_prompt"@, SettingValueView::Text(p@)),
            )
        }),
{
    let a = text_override(url_path, args.base_url);
    let b = integer_override(timeout_path, args.timeout);
    let c = text_override("system_prompt"@, args.system_prompt);
    let o = a + b + c;
    assert forall|i: int| 0 <= i < o.len() implies (#[trigger] o[i]).0 == url_path || o[i].0
        == timeout_path || o[i].0 == "system_prompt"@ by {
        if i < a.len() {
            assert(o[i] == a[i]);
        } else if i < a.len() + b.len() {
            assert(o[i] == b[i - a.len()]);
        } else {
            assert(o[i] == c[i - a.len() - b.len()]);
        }
    }
    if let Some(u) = args.base_url {
        assert(o[0] == (url_path, SettingValueView::Text(u@)));
    }
    if let Some(t) = args.timeout {
        assert(o[a.len() as int] == (timeout_path, SettingValueView::Integer(t)));
    }
    if let Some(p) = args.system_prompt {
        assert(o[(a.len() + b.len()) as int] == ("system_prompt"@, SettingValueView::Text(p@)));
    }
}

/// Law: every setting that the command line overrides is a setting that has a default (the
/// selected runner's base URL or read timeout, or the system prompt), so an override always
/// replaces a setting that the runner configuration reads.
pub proof fn law_overrides_name_default_settings(command: Commands)
    ensures
        forall|i: int|
            0 <= i < spec_cli_overrides(command).len() ==> has_default(
                #[trigger] spec_cli_overrides(command)[i].0,
            ),
{
    let d = spec_default_settings();
    let (a, b, c) = match command {
        Commands::Ollama(RunnerCommands::Run(args)) => {
            assert(d[3].0 == "ollama.base_url"@);
            assert(d[5].0 == "ollama.timeout_secs"@);
            (
                text_override("ollama.base_url"@, args.base_url),
                integer_override("ollama.timeout_secs"@, args.timeout),
                text_override("system_prompt"@, args.system_prompt),
            )
        },
        Commands::Llamacpp(RunnerCommands::Run(args)) => {
            assert(d[0].0 == "llamacpp.base_url"@);
            assert(d[2].0 == "llamacpp.timeout_secs"@);
            (
                text_override("llamacpp.base_url"@, args.base_url),
                integer_override("llamacpp.timeout_secs"@, args.timeout),
                text_override("system_prompt"@, args.system_prompt),
            )
        },
    };
    assert(d[6].0 == "system_prompt"@);
    let o = spec_cli_overrides(command);
    assert(o == a + b + c);
    assert forall|i: int| 0 <= i < o.len() implies has_default(#[trigger] o[i].0) by {
        if i < a.len() {
            assert(o[i] == a[i]);
            match command {
                Commands::Ollama(_) => assert(d[3].0 == o[i].0),
                Commands::Llamacpp(_) => assert(d[0].0 == o[i].0),
            }
        } else if i < a.len() + b.len() {
            assert(o[i] == b[i - a.len()]);
            match command {
                Commands::Ollama(_) => assert(d[5].0 == o[i].0),
                Commands::Llamacpp(_) => assert(d[2].0 == o[i].0),
            }
        } else {
            assert(o[i] == c[i - a.len() - b.len()]);
            assert(d[6].0 == o[i].0);
        }
    }
}

/// The app settings that `cli_options` and `user_settings` give, or the error in validating the
/// selected runner's configuration.
pub open spec fn app_settings_outcome(
    res: Result<AppSettings, AppError>,
    cli_options: Cli,
    user_settings: UserAppSettings,
) -> bool {
    let (user, args) = match cli_options.command {
        Commands::Llamacpp(RunnerCommands::Run(args)) => (user_settings.llamacpp, args),
        Commands::Ollama(RunnerCommands::Run(args)) => (user_settings.ollama, args),
    };
    match api_config_outcome(user.base_url@, user.api_key@) {
        Ok(url) => res matches Ok(settings) && {
            &&& match (cli_options.command, settings.runner) {
                (Commands::Llamacpp(_), RunnerSettings::Llamacpp(config)) => config.matches_user(user, url),
                (Commands::Ollama(_), RunnerSettings::Ollama(config)) => config.matches_user(user, url),
                _ => false,
            }
            &&& settings.model@ == args.model@
            &&& settings.prompt@ == args.prompt@
            &&& settings.system_prompt@ == user_settings.system_prompt@
        },
        Err((advice, detail)) => res matches Err(AppError::Config(e)) && e.advice@ == advice
            && e.detail@ == detail,
    }
}

impl AppSettings {
    /// The default settings, as `spec_default_settings` lists them.
    pub fn default_settings() -> (res: Vec<(String, SettingValue)>)
        ensures
            settings_view(res@) == spec_default_settings(),
    {
        let mut v: Vec<(String, SettingValue)> = Vec::new();
        v.push((String::from_str("llamacpp.base_url"), SettingValue::Text(String::from_str(DEFAULT_LLAMACPP_BASE_URL))));
        v.push((String::from_str("llamacpp.api_key"), SettingValue::Text(String::from_str(DEFAULT_LLAMACPP_API_KEY))));
        v.push((String::from_str("llamacpp.timeout_secs"), SettingValue::Integer(DEFAULT_READ_TIMEOUT)));
        v.push((String::from_str("ollama.base_url"), SettingValue::Text(String::from_str(DEFAULT_OLLAMA_BASE_URL))));
        v.push((String::from_str("ollama.api_key"), SettingValue::Text(String::from_str(DEFAULT_OLLAMA_API_KEY))));
        v.push((String::from_str("ollama.timeout_secs"), SettingValue::Integer(DEFAULT_READ_TIMEOUT)));
        v.push((String::from_str("system_prompt"), SettingValue::Text(String::from_str(DEFAULT_SYSTEM_PROMPT))));
        assert(settings_view(v@) =~= spec_default_settings());
        v
    }

    /// Builds the app settings from the loaded user settings: validates the configuration of the
    /// runner that the command selects and takes the model and prompt from the command.
    pub fn from_user_settings(cli_options: Cli, user_settings: UserAppSettings) -> (res: Result<
        Self,
        AppError,
    >)
        ensures
            app_settings_outcome(res, cli_options, user_settings),
    {
        let system_prompt = user_settings.system_prompt;
        match cli_options.command {
            Commands::Llamacpp(RunnerCommands::Run(run_args)) => {
                match ApiConfig::try_from(user_settings.llamacpp) {
                    Ok(api_config) => Ok(
                        AppSettings {
                            runner: RunnerSettings::Llamacpp(api_config),
                            model: run_args.model,
                            prompt: run_args.prompt,
                            system_prompt,
                        },
                    ),
                    Err(err) => Err(AppError::Config(err)),
                }
            },
            Commands::Ollama(RunnerCommands::Run(run_args)) => {
                match ApiConfig::try_from(user_settings.ollama) {
                    Ok(api_config) => Ok(
                        AppSettings {
                            runner: RunnerSettings::Ollama(api_config),
                            model: run_args.model,
                            prompt: run_args.prompt,
                            system_prompt,
                        },
                    ),
                    Err(err) => Err(AppError::Config(err)),
                }
            },
        }
    }
}

} // verus!

