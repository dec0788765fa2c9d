[package]
name = "flute-webhooks-mcp"
version = "0.1.0"
edition = "2021"
publish = false

[dependencies]
serde = { version = "=1.0.229", features = ["derive"] }
serde_json = "=1.0.154"
rmcp = { version = "=1.7.0", features = ["server", "transport-io", "macros", "schemars"] }
rmcp-macros = "=1.7.0"
schemars = "=1.2.3"
tokio = { version = "=1.54.1", features = ["macros", "rt-multi-thread", "process", "time", "signal", "io-util"] }
thiserror = "=2.0.21"
tracing = "=0.1.44"
tracing-subscriber = { version = "=0.3.23", features = ["env-filter"] }
which = "=8.0.6"
clap = { version = "=4.6.7", features = ["derive", "env"] }
async-trait = "=0.1.92"
