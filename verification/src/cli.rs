use vstd::prelude::*;

verus! {

/// Runner specific arguments
#[derive(Debug)]
pub struct RunArgs {
    /// Model name or alias
    pub model: String,
    /// Runner prompt
    pub prompt: String,
    /// Runner base URL ("http://localhost:11434", for example)
    pub base_url: Option<String>,
    /// Runner read timeout in seconds
    pub timeout: Option<u64>,
    /// Model system prompt override
    pub system_prompt: Option<String>,
}

/// Runner specific commands
#[derive(Debug)]
pub enum RunnerCommands {
    /// Run a model
    Run(RunArgs),
}

/// App commands
#[derive(Debug)]
pub enum Commands {
    /// Use the Ollama large language model runner
    Ollama(RunnerCommands),
    /// Use the llama.cpp large language model runner
    Llamacpp(RunnerCommands),
}

/// App command line arguments that the settings depend on
#[derive(Debug)]
pub struct Cli {
    /// Command
    pub command: Commands,
    /// Path to TOML configuration file.
    pub config: Option<std::path::PathBuf>,
}

} // verus!
