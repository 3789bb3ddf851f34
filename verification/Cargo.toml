[package]
name = "soupbin_feed"
version = "0.1.0"
edition = "2021"
publish = false

[dependencies]
async-trait = "=0.1.92"
bb8 = "=0.9.1"
bb8-tiberius = "=0.16.0"
bytes = "=1.12.1"
chrono = "=0.4.45"
config = { version = "=0.15.27", default-features = false, features = ["async"] }
crossbeam-channel = "=0.5.17"
mio = { version = "=1.2.4", features = ["net", "os-poll"] }
opentelemetry = "=0.33.1"
reqwest = { version = "=0.13.5", default-features = false }
reqwest-middleware = "=0.5.2"
reqwest-retry = "=0.9.1"
rust_decimal = "=1.43.0"
serde = { version = "=1.0.229", features = ["derive"] }
thiserror = "=2.0.21"
tiberius = { version = "=0.12.3", default-features = false }
tokio = { version = "=1.54.1", features = ["net", "io-util", "time", "rt", "sync", "macros"] }
tracing = "=0.1.44"
uuid = { version = "=1.29.0", features = ["v4", "v7", "serde"] }
uuid-simd = "=0.8.0"

[dev-dependencies]
serde_json = "=1.0.154"
