[package]
name = "vscode_codeql_native"
version = "0.1.0"
edition = "2021"
publish = false

[dependencies]
neon = "1"
winsafe = { version = "*", features = ["kernel"] }
