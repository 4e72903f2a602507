[package]
name = "cast_mcp"
version = "0.1.0"
edition = "2021"
publish = false

[dependencies]
alloy-ens = { version = "=2.5.0", default-features = false }
alloy-primitives = "=1.7.3"
alloy-provider = { version = "=2.5.0", default-features = false }
alloy-rpc-types = { version = "=2.5.0", default-features = false, features = ["eth"] }
rmcp = { version = "=3.7.0", features = ["server", "macros", "transport-io"] }
serde = { version = "=1.0.229", features = ["derive"] }
serde_default = "=0.2.0"
serde_json = "=1.0.154"
tokio = { version = "=1.54.1", features = ["macros", "rt-multi-thread", "io-std"] }
tracing = "=0.1.44"
