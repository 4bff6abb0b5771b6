# elelemer

A command line client for local Large Language Model runners (Llama.cpp and Ollama) that
streams chat completions through their OpenAI-compatible APIs.

- `src/` is the library, written in Verus: settings defaults and command line overrides,
  runner configuration validation, request construction, stream chunk decoding decisions,
  error mapping and the display state machine that consumes a response stream. Calls into
  outside crates (`url`, `http`, `secrecy`, `owo-colors`) go through small trusted wrappers
  whose contracts are stated next to them.
- `app/` is the program around it: argument parsing, logging, configuration file and
  environment loading, JSON (de)serialisation, the HTTP transport and the async stream loop.
- `tests/` exercises the library on concrete values.
