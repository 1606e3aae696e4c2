[package]
name = "sidecar"
version = "0.1.0"
edition = "2021"
publish = false

[dependencies]
anyhow = "1"
hyper = { version = "0.14", features = ["server", "http1", "tcp"] }
nix = { version = "0.30", features = ["fs", "socket"] }
tower = { version = "0.4", features = ["buffer", "limit", "make", "util"] }
tracing = "0.1"
warp = { version = "0.3", default-features = false }
