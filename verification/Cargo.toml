[package]
name = "secblob"
version = "0.1.0"
edition = "2021"
publish = false

[dependencies]
der-parser = "*"
kerberos-parser = "*"
libc = "0.2"
packet-ipc = "*"
serde = { version = "1", features = ["derive"] }
serde_json = "1"
