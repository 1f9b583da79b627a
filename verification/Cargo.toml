[package]
name = "pcidss_oracle"
version = "0.1.0"
edition = "2021"
publish = false

[dependencies]
subxt-signer = { version = "=0.51.1", default-features = false, features = ["sr25519", "std"] }
chrono = { version = "=0.4.45", features = ["serde"] }
jsonrpsee = { version = "=0.26.1", features = ["server", "macros", "client-core"] }
jsonrpsee-types = "=0.26.1"
async-trait = "=0.1.92"
tokio = { version = "=1.54.1", features = ["rt-multi-thread", "macros"] }
uuid = { version = "=1.29.0", features = ["v4", "serde"] }
serde = { version = "=1.0.229", features = ["derive"] }
anyhow = "=1.0.104"
log = "=0.4.34"
iso8583_rs = "=0.1.10"

[dev-dependencies]
serde_json = "=1.0.154"
