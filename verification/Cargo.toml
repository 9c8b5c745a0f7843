[package]
name = "tee_wasm_runner"
version = "0.1.0"
edition = "2021"
publish = false

[dependencies]
anyhow = "1"
base64 = "=0.22.1"
clap = { version = "4", features = ["derive"] }
env_logger = "*"
futures-util = "0.3"
jwt-simple = "=0.11.9"
log = "0.4"
oci-client = { version = "=0.18.0", default-features = false, features = ["rustls-tls-no-provider"] }
oci-spec = "=0.10.0"
reqwest = { version = "0.12", default-features = false }
tokio = { version = "1", features = ["macros", "rt-multi-thread", "fs", "io-util", "sync"] }
