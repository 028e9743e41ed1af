[package]
name = "aurae_executables"
version = "0.1.0"
edition = "2021"
publish = false

[dependencies]
nix = { version = "=0.26.4", default-features = false, features = ["signal", "process"] }
procfs = { version = "=0.15.1", default-features = false }
tracing = "=0.1.44"

[dev-dependencies]
subprocess = "0.2"
