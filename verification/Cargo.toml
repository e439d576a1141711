[package]
name = "version_migrate"
version = "0.1.0"
edition = "2021"
publish = false

[dependencies]
semver = "=1.0.28"
serde = { version = "=1.0.229", features = ["derive"] }
serde_json = "=1.0.154"
toml = "=0.8.23"
dirs = "=5.0.1"
fs2 = "=0.4.3"
thiserror = "=1.0.69"
async-trait = "=0.1.92"
proc-macro2 = "=1.0.107"
quote = "=1.0.47"
syn = { version = "=2.0.119", features = ["full"] }

[dev-dependencies]
serde_yaml = "0.9"
