[package]
name = "ast_grep_gui"
version = "0.1.0"
edition = "2021"
publish = false

[dependencies]
ast-grep-core = "=0.51.1"
ast-grep-language = "=0.51.1"
regex = "=1.13.1"
encoding_rs = "=0.8.44"
chardetng = "=0.1.17"
sys-locale = "=0.3.2"
serde = { version = "=1.0.229", features = ["derive"] }
serde_json = "=1.0.154"
serde_yaml = "=0.9.34"
anyhow = "=1.0.104"
clap = { version = "4", features = ["derive"] }
crossbeam-channel = "0.5"
jwalk = "0.8"
rayon = "1"
rust_xlsxwriter = "*"
