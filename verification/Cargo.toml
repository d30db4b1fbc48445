[package]
name = "codebuddy"
version = "0.1.0"
edition = "2021"
publish = false

[dependencies]
regex = "=1.13.1"
url = "=2.5.8"
chrono = { version = "=0.4.45", default-features = false, features = ["clock", "std"] }
serde = { version = "=1.0.229", features = ["derive"] }
serde_json = "=1.0.154"
dirs = "=5.0.1"
clap = { version = "=4.6.7", features = ["derive"] }
which = "=6.0.3"
syn = { version = "=2.0.119", features = ["full", "visit"] }
libc = "=0.2.191"
fuser = { version = "=0.14.0", default-features = false }
rustpython-parser = "=0.3.1"
swc_common = "*"
swc_ecma_ast = "*"
swc_ecma_parser = "*"
swc_ecma_visit = "*"
