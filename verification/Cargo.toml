[package]
name = "nine-router-bootstrap"
version = "0.5.69"
edition = "2021"
publish = false

[dependencies]
anyhow = "1"
clap = { version = "4", features = ["derive"] }
dirs = "5"
glob = "0.3"
nix = { version = "0.29", features = ["signal", "process"] }
tokio = { version = "1", features = ["macros", "rt-multi-thread", "net", "time", "process", "signal"] }
tracing = "0.1"
tracing-subscriber = { version = "0.3", features = ["env-filter", "fmt"] }
which = "6"
