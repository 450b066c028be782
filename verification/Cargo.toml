[package]
name = "xmpp"
version = "0.1.0"
edition = "2021"
publish = false

[dependencies]
base64 = "0.21"
jid = { version = "0.9", features = ["serde"] }
minidom = "0.15"
xmpp-parsers = "0.19"
sasl = "0.5"
xml-rs = "0.8"
native-tls = "0.2"
trust-dns-resolver = "0.22"
serde = { version = "1", features = ["derive"] }
serde_json = "1"
gdnative = "0.11"
