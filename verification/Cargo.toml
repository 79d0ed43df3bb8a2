[package]
name = "glycin"
version = "0.1.0"
edition = "2021"
publish = false

[dependencies]
gufo-common = "=2.0.0"
zbus = { version = "=5.19.0", features = ["p2p"] }
zvariant = "=5.15.0"
nix = { version = "=0.31.3", features = ["signal", "fs"] }
memfd = "=0.6.6"
memmap2 = "=0.9.11"
libc = "=0.2.190"
futures-channel = "=0.3.34"
futures-util = "=0.3.34"
futures-lite = "=2.6.1"
image = { version = "=0.25.10", default-features = false }
half = "=2.7.1"
serde = { version = "=1.0.229", features = ["derive"] }
