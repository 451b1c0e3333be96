[package]
name = "nmstate"
version = "0.1.0"
edition = "2021"
publish = false

[dependencies]
log = "0.4"
nispor = "1"
serde = { version = "1", features = ["derive"] }
serde_json = "1"
zbus = "1"
zvariant = "2"
