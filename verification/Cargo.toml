[package]
name = "scrat"
version = "0.1.0"
edition = "2021"
publish = false

[dependencies]
anyhow = "=1.0.104"
base64 = "=0.23.1"
camino = "=1.2.6"
clap = { version = "=4.6.7", features = ["derive"] }
clap_complete = "=4.6.11"
clap_mangen = "=0.3.3"
directories = "=6.0.0"
figment = { version = "=0.10.19", features = ["toml", "yaml", "json"] }
indicatif = "=0.18.6"
inquire = "=0.9.4"
owo-colors = { version = "=4.4.0", features = ["supports-colors"] }
semver = "=1.0.28"
serde = { version = "=1.0.229", features = ["derive"] }
serde_json = "=1.0.151"
serde-saphyr = "=1.3.0"
tempfile = "=3.27.0"
thiserror = "=2.0.21"
tracing = "=0.1.44"
tracing-appender = "=0.2.5"
tracing-subscriber = { version = "=0.3.23", features = ["env-filter"] }
which = "=8.0.6"

[dev-dependencies]
