[package]
name = "elelemer"
version = "0.1.0"
edition = "2021"
publish = false

[dependencies]
clap = { version = "=4.6.7", features = ["derive"] }
clap-markdown = "=0.1.5"
clap-verbosity-flag = "=3.0.4"
config = "=0.15.27"
dirs = "=7.0.0"
env_logger = "=0.11.11"
eventsource-client = "=0.18.0"
futures-util = "=0.3.34"
http = "=1.5.0"
indicatif = "=0.18.6"
launchdarkly-sdk-transport = { version = "=0.1.4", features = ["hyper-rustls-webpki-roots"] }
log = "=0.4.35"
miette = "=7.6.0"
owo-colors = "=4.4.0"
secrecy = "=0.10.3"
serde = { version = "=1.0.229", features = ["derive"] }
serde_json = "=1.0.154"
thiserror = "=2.0.21"
tokio = { version = "=1.54.1", features = ["macros", "rt-multi-thread"] }
url = "=2.5.8"
