use vstd::prelude::*;

verus! {

/// Builds `prefix` followed by `rest`.
pub(crate) fn prefixed(prefix: &str, rest: &str) -> (res: String)
    ensures
        res@ == prefix@ + rest@,
{
    let mut s = String::from_str(prefix);
    s.append(rest);
    s
}

/// App configuration error
#[derive(Debug)]
pub struct ConfigError {
    /// User-focused remedial suggestion
    pub advice: String,
    /// Error detail
    pub detail: String,
}

impl ConfigError {
    /// The error's display text: its detail.
    pub fn to_string(&self) -> (res: String)
        ensures
            res@ == self.detail@,
    {
        self.detail.clone()
    }

    /// The error's help text: its advice.
    pub fn help(&self) -> (res: Option<String>)
        ensures
            res matches Some(h) && h@ == self.advice@,
    {
        Some(self.advice.clone())
    }
}

/// What the configuration loader reported, as plain values.
///
/// The configuration loader distinguishes a file that does not parse, a failure from outside
/// the loader itself (usually reading the file) and every other failure.
#[derive(Debug)]
pub enum ConfigErrorSource {
    /// A configuration file did not parse; `uri` names the file when it is known.
    FileParse {
        /// File that did not parse, when known
        uri: Option<String>,
        /// Display text of the loader's error
        description: String,
    },
    /// Reading a configuration file failed because it does not exist.
    IoNotFound {
        /// Display text of the I/O error
        description: String,
    },
    /// Reading a configuration file failed for another I/O reason.
    IoOther,
    /// A failure from outside the loader that is not an I/O failure.
    ForeignOther,
    /// Every other loader failure.
    Other {
        /// Display text of the loader's error
        description: String,
    },
}

/// The [`ConfigError`] reported for a configuration loader failure.
pub open spec fn config_error_from_source(source: ConfigErrorSource) -> (Seq<char>, Seq<char>) {
    match source {
        ConfigErrorSource::FileParse { uri, description } => match uri {
            Some(file) => ("Check syntax in `"@ + file@ + "`"@, description@),
            None => ("Check configuration syntax"@, description@),
        },
        ConfigErrorSource::IoNotFound { description } => (
            "Config file not found; check it exists"@,
            description@,
        ),
        ConfigErrorSource::IoOther => (
            "Check file exists"@,
            "IO error while loading configuration file"@,
        ),
        ConfigErrorSource::ForeignOther => (
            "Check file exists"@,
            "Unexpected error while loading configuration file"@,
        ),
        ConfigErrorSource::Other { description } => (
            "Check file exists and syntax is valid"@,
            description@,
        ),
    }
}

impl ConfigError {
    /// Converts a configuration loader failure into the app's configuration error.
    pub fn from_source(value: ConfigErrorSource) -> (res: ConfigError)
        ensures
            (res.advice@, res.detail@) == config_error_from_source(value),
    {
        match value {
            ConfigErrorSource::FileParse { uri, description } => match uri {
                Some(file) => {
                    let mut advice = prefixed("Check syntax in `", file.as_str());
                    advice.append("`");
                    ConfigError { advice, detail: description }
                },
                None => ConfigError {
                    advice: String::from_str("Check configuration syntax"),
                    detail: description,
                },
            },
            ConfigErrorSource::IoNotFound { description } => ConfigError {
                advice: String::from_str("Config file not found; check it exists"),
                detail: description,
            },
            ConfigErrorSource::IoOther => ConfigError {
                advice: String::from_str("Check file exists"),
                detail: String::from_str("IO error while loading configuration file"),
            },
            ConfigErrorSource::ForeignOther => ConfigError {
                advice: String::from_str("Check file exists"),
                detail: String::from_str("Unexpected error while loading configuration file"),
            },
            ConfigErrorSource::Other { description } => ConfigError {
                advice: String::from_str("Check file exists and syntax is valid"),
                detail: description,
            },
        }
    }
}

/// App input/output error
#[derive(Debug)]
pub struct IOError {
    /// User-focused remedial suggestion
    pub advice: String,
    /// Additional error context
    pub context: String,
    /// Error root cause
    pub cause: std::io::Error,
}

impl IOError {
    /// Display text of the error.
    pub open spec fn spec_message(&self) -> Seq<char> {
        "Io error while "@ + self.context@
    }

    /// The error's display text: "Io error while " followed by its context.
    pub fn to_string(&self) -> (res: String)
        ensures
            res@ == self.spec_message(),
    {
        prefixed("Io error while ", self.context.as_str())
    }

    /// The error's help text: its advice.
    pub fn help(&self) -> (res: Option<String>)
        ensures
            res matches Some(h) && h@ == self.advice@,
    {
        Some(self.advice.clone())
    }
}

/// Runner API connection error
#[derive(Debug)]
pub struct ConnectionError {
    /// User-focused remedial suggestion
    pub advice: String,
    /// Additional error context
    pub context: String,
}

impl ConnectionError {
    /// Display text of the error.
    pub open spec fn spec_message(&self) -> Seq<char> {
        "Connection error while "@ + self.context@
    }

    /// The error's display text: "Connection error while " followed by its context.
    pub fn to_string(&self) -> (res: String)
        ensures
            res@ == self.spec_message(),
    {
        prefixed("Connection error while ", self.context.as_str())
    }

    /// The error's help text: its advice.
    pub fn help(&self) -> (res: Option<String>)
        ensures
            res matches Some(h) && h@ == self.advice@,
    {
        Some(self.advice.clone())
    }
}

/// Runner API response error
#[derive(Debug)]
pub struct ResponseError {
    /// User-focused remedial suggestion
    pub advice: String,
    /// Additional error context
    pub context: String,
}

impl ResponseError {
    /// Display text of the error.
    pub open spec fn spec_message(&self) -> Seq<char> {
        "Response error while "@ + self.context@
    }

    /// The error's display text: "Response error while " followed by its context.
    pub fn to_string(&self) -> (res: String)
        ensures
            res@ == self.spec_message(),
    {
        prefixed("Response error while ", self.context.as_str())
    }

    /// The error's help text: its advice.
    pub fn help(&self) -> (res: Option<String>)
        ensures
            res matches Some(h) && h@ == self.advice@,
    {
        Some(self.advice.clone())
    }
}

/// Unexpected app error
///
/// App entered a state that was not considered possible enter
#[derive(Debug)]
pub struct UnexpectedError {
    /// User-focused remedial suggestion
    pub advice: String,
    /// Additional error context
    pub context: String,
    /// Error root cause
    pub cause: String,
}

impl UnexpectedError {
    /// Display text of the error.
    pub open spec fn spec_message(&self) -> Seq<char> {
        "Unexpected error while "@ + self.context@
    }

    /// The error's display text: "Unexpected error while " followed by its context.
    pub fn to_string(&self) -> (res: String)
        ensures
            res@ == self.spec_message(),
    {
        prefixed("Unexpected error while ", self.context.as_str())
    }

    /// The error's help text: its advice.
    pub fn help(&self) -> (res: Option<String>)
        ensures
            res matches Some(h) && h@ == self.advice@,
    {
        Some(self.advice.clone())
    }
}

/// Kind of failure reported by the runner's event stream client.
#[derive(Debug)]
pub enum RunnerApiErrorKind {
    /// The HTTP response stream ended.
    Eof,
    /// The HTTP transport failed (the server could not be reached, for example).
    Transport,
    /// The server answered with a response that could not be handled.
    UnexpectedResponse {
        /// HTTP status code of the response
        status: u16,
    },
    /// Every other stream client failure.
    Other,
}

/// Runner event stream client failure, as plain values.
#[derive(Debug)]
pub struct RunnerApiError {
    /// What kind of failure this is
    pub kind: RunnerApiErrorKind,
    /// Display text of the stream client's error
    pub message: String,
    /// Debug text of the stream client's error
    pub details: String,
}

/// Runner API response stream error
#[derive(Debug)]
pub enum RunnerStreamError {
    /// Error connecting to runner API
    Connection(ConnectionError),
    /// Error while waiting for or parsing API response
    Response(ResponseError),
    /// Runner API error
    Runner(RunnerApiError),
    /// Unexpected API runner error
    Unexpected(UnexpectedError),
}

impl RunnerStreamError {
    /// Display text of the error: that of the error it wraps.
    pub open spec fn spec_message(&self) -> Seq<char> {
        match self {
            RunnerStreamError::Connection(e) => e.spec_message(),
            RunnerStreamError::Response(e) => e.spec_message(),
            RunnerStreamError::Runner(e) => e.message@,
            RunnerStreamError::Unexpected(e) => e.spec_message(),
        }
    }

    /// Help text of the error: that of the error it wraps; a stream client error has none.
    pub open spec fn spec_help(&self) -> Option<Seq<char>> {
        match self {
            RunnerStreamError::Connection(e) => Some(e.advice@),
            RunnerStreamError::Response(e) => Some(e.advice@),
            RunnerStreamError::Runner(e) => None,
            RunnerStreamError::Unexpected(e) => Some(e.advice@),
        }
    }

    /// The error's display text, that of the wrapped error.
    pub fn to_string(&self) -> (res: String)
        ensures
            res@ == self.spec_message(),
    {
        match self {
            RunnerStreamError::Connection(e) => e.to_string(),
            RunnerStreamError::Response(e) => e.to_string(),
            RunnerStreamError::Runner(e) => e.message.clone(),
            RunnerStreamError::Unexpected(e) => e.to_string(),
        }
    }

    /// The error's help text, that of the wrapped error.
    pub fn help(&self) -> (res: Option<String>)
        ensures
            res is Some <==> self.spec_help() is Some,
            res matches Some(h) ==> h@ == self.spec_help().unwrap(),
    {
        match self {
            RunnerStreamError::Connection(e) => e.help(),
            RunnerStreamError::Response(e) => e.help(),
            RunnerStreamError::Runner(e) => None,
            RunnerStreamError::Unexpected(e) => e.help(),
        }
    }
}

/// Error initialising runner API SSE stream
#[derive(Debug)]
pub enum RunnerStreamInitialisationError {
    /// Unexpected runner API SSE stream initialisation error
    Unexpected(UnexpectedError),
}

impl RunnerStreamInitialisationError {
    /// Display text of the error: that of the error it wraps.
    pub open spec fn spec_message(&self) -> Seq<char> {
        match self {
            RunnerStreamInitialisationError::Unexpected(e) => e.spec_message(),
        }
    }

    /// The error's display text, that of the wrapped error.
    pub fn to_string(&self) -> (res: String)
        ensures
            res@ == self.spec_message(),
    {
        match self {
            RunnerStreamInitialisationError::Unexpected(e) => e.to_string(),
        }
    }

    /// The error has no help text.
    pub fn help(&self) -> (res: Option<String>)
        ensures
            res is None,
    {
        None
    }
}

/// Global app error
#[derive(Debug)]
pub enum AppError {
    /// App configuration error
    Config(ConfigError),
    /// App input/output error
    IO(IOError),
    /// App runner API SSE streaming error
    RunnerStream(RunnerStreamError),
    /// App runner API SSE stream initialisation error
    RunnerStreamInitialisation(RunnerStreamInitialisationError),
}

impl AppError {
    /// Display text of the error: that of the error it wraps.
    pub open spec fn spec_message(&self) -> Seq<char> {
        match self {
            AppError::Config(e) => e.detail@,
            AppError::IO(e) => e.spec_message(),
            AppError::RunnerStream(e) => e.spec_message(),
            AppError::RunnerStreamInitialisation(e) => e.spec_message(),
        }
    }

    /// Help text of the error: that of the error it wraps.
    pub open spec fn spec_help(&self) -> Option<Seq<char>> {
        match self {
            AppError::Config(e) => Some(e.advice@),
            AppError::IO(e) => Some(e.advice@),
            AppError::RunnerStream(e) => e.spec_help(),
            AppError::RunnerStreamInitialisation(e) => None,
        }
    }

    /// The error's display text, that of the wrapped error.
    pub fn to_string(&self) -> (res: String)
        ensures
            res@ == self.spec_message(),
    {
        match self {
            AppError::Config(e) => e.to_string(),
            AppError::IO(e) => e.to_string(),
            AppError::RunnerStream(e) => e.to_string(),
            AppError::RunnerStreamInitialisation(e) => e.to_string(),
        }
    }

    /// The error's help text, that of the wrapped error.
    pub fn help(&self) -> (res: Option<String>)
        ensures
            res is Some <==> self.spec_help() is Some,
            res matches Some(h) ==> h@ == self.spec_help().unwrap(),
    {
        match self {
            AppError::Config(e) => e.help(),
            AppError::IO(e) => e.help(),
            AppError::RunnerStream(e) => e.help(),
            AppError::RunnerStreamInitialisation(e) => e.help(),
        }
    }
}

} // verus!

