[package]
name = "heappy"
version = "0.1.0"
edition = "2021"
publish = false

[dependencies]
clap = { version = "4", features = ["derive"] }
duckdb = { version = "1", default-features = false }
jvm-hprof = "0.1"
libc = "0.2"
memmap = "0.7"
serde = { version = "1", features = ["derive"] }
serde_json = "=1.0.154"
sha2 = "=0.10.9"
