[package]
name = "lynx_runner"
version = "0.1.0"
edition = "2021"
publish = false

[dependencies]
kanal = "0.1.1"
log = "0.4"
env_logger = "0.11"
serde = { version = "1", features = ["derive"] }
confy = "*"
clap = { version = "4", features = ["derive"] }
fd-lock = "4"
shared_memory = "0.12"
strum = "*"
strum_macros = "*"
thread-priority = "*"
