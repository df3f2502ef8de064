[package]
name = "chris"
version = "0.1.0"
edition = "2021"
publish = false

[dependencies]
async-trait = "*"
clap = { version = "*", features = ["derive"] }
config = "*"
dirs = "*"
env_logger = "*"
log = "*"
reqwest = { version = "*", default-features = false, features = ["json", "rustls-tls"] }
rustyline = "*"
serde = { version = "*", features = ["derive"] }
serde_json = "*"
sysinfo = "*"
term_size = "*"
thiserror = "*"
tokio = { version = "*", features = ["rt-multi-thread", "macros"] }
toml = "*"
whoami = "*"
