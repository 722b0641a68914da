[package]
name = "rustfuscator"
version = "0.1.0"
edition = "2021"
publish = false

[dependencies]
aes-gcm = "*"
globset = "*"
similar = "*"
toml_edit = "*"
rand = "*"
syn = { version = "2", features = ["full"] }
prettyplease = "0.2"
quote = "*"
proc-macro2 = "*"
anyhow = "*"
clap = { version = "4", features = ["derive"] }
serde = { version = "*", features = ["derive"] }
toml = "*"
serde_json = "*"
walkdir = "*"
fs_extra = "*"
cargo_metadata = "*"
