[package]
name = "via_core_ext"
version = "0.1.0"
edition = "2021"
publish = false

[dependencies]
anyhow = "=1.0.104"
async-trait = "=0.1.92"
axum = "=0.7.9"
bincode = "=1.3.3"
celestia-rpc = "=0.14.0"
celestia-types = "=0.16.0"
dotenvy = "=0.15.7"
hex = "=0.4.3"
serde = { version = "=1.0.229", features = ["derive"] }
tokio = { version = "=1.54.1", features = ["macros", "rt-multi-thread", "net", "sync", "time"] }
tower-http = { version = "=0.5.2", features = ["trace"] }
tracing = "=0.1.44"
tracing-subscriber = { version = "=0.3.23", features = ["env-filter"] }
vise = "=0.3.2"
vise-exporter = "=0.3.2"
