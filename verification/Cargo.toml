[package]
name = "zephir"
version = "0.1.0"
edition = "2021"
publish = false

[dependencies]
nix = { version = "*", features = ["fs", "user", "process"] }
rlimit = "*"
tar = "*"
zstd = "*"
walkdir = "*"
tokio = { version = "*", features = ["macros", "rt", "process", "io-util", "fs", "signal", "sync"] }
serde = { version = "*", features = ["derive"] }
serde_yaml = "*"
clap = { version = "*", features = ["derive"] }
log = "*"
fern = "*"
chrono = "*"
thiserror = "*"
mlua = { version = "*", features = ["lua54", "vendored"] }
wasmtime = "=48.0.5"
wasmtime-wasi = "=48.0.5"
