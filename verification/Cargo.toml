[package]
name = "gigawatt"
version = "0.1.0"
edition = "2021"
publish = false

[dependencies]
nix = { version = "=0.30.1", features = ["term"] }
gix = { version = "=0.90.0", default-features = false, features = ["status", "sha1"] }
