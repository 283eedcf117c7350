[package]
name = "theatre"
version = "0.1.0"
edition = "2021"
publish = false

[dependencies]
serde = { version = "1", features = ["derive"] }
serde_json = "1"
serde_with = "3"
schemars = "*"
rmcp = { version = "*", features = ["server", "transport-io", "macros"] }
tokio = { version = "1", features = ["full"] }
thiserror = "*"
anyhow = "1"
tracing = "0.1"
tracing-subscriber = { version = "0.3", features = ["env-filter", "fmt"] }
which = "*"
regex = "1"
rstar = "*"

[dev-dependencies]
tempfile = "3"
