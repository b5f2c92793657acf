[package]
name = "clip-bridge"
version = "0.1.0"
edition = "2021"
publish = false

[dependencies]
compact_str = "0.9"
nix = { version = "0.30", features = ["poll"] }
tokio = { version = "1", features = ["rt-multi-thread", "macros", "sync"] }
tracing = "0.1"
tracing-subscriber = { version = "0.3", features = ["env-filter"] }
wayland-client = "0.31"
wayland-protocols-wlr = { version = "0.3", features = ["client"] }
x11rb = { version = "0.13", features = ["xfixes"] }
xxhash-rust = { version = "0.8", features = ["xxh3"] }
