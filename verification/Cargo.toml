[package]
name = "matugen_llava_seed"
version = "0.1.0"
edition = "2021"
publish = false

[dependencies]
anyhow = "1"
base64 = "0.21"
clap = { version = "4", features = ["derive"] }
directories = "5"
glob = "0.3"
image = "0.24"
notify = "6"
reqwest = { version = "0.11", default-features = false, features = ["blocking", "json"] }
serde = { version = "1", features = ["derive"] }
serde_json = "1"
sha2 = "0.10"
toml = "0.8"
tracing-subscriber = { version = "0.3", features = ["env-filter"] }
which = "6"
