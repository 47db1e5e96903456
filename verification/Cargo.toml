[package]
name = "nono"
version = "0.1.0"
edition = "2021"
publish = false

[dependencies]
getrandom = "0.3"
libc = "0.2"
nix = { version = "0.30", features = ["fs", "poll", "process", "signal"] }
serde = { version = "1", features = ["derive"] }
serde_json = "1"
sha2 = "0.10"
thiserror = "2"
uuid = { version = "1", features = ["serde", "v7"] }
zeroize = { version = "1", features = ["derive"] }
