[package]
name = "psh"
version = "0.1.0"
edition = "2021"
publish = false

[dependencies]
anyhow = "=1.0.104"
chrono = "=0.4.45"
local-ip-address = "=0.6.13"
nix = { version = "=0.31.3", features = ["hostname"] }
procfs = "=0.18.0"
prost = "=0.13.5"
tokio = { version = "=1.54.1", features = ["rt-multi-thread", "macros", "time"] }
tonic = { version = "=0.12.3", features = ["tls", "tls-native-roots"] }
tracing = "=0.1.44"
wasmtime = { version = "=47.0.4", default-features = false, features = ["runtime", "component-model", "std", "cranelift"] }
