[package]
name = "serde_xml_rs"
version = "0.1.0"
edition = "2021"
publish = false

[dependencies]
serde = { version = "=1.0.229", features = ["derive"] }
xml-rs = "=1.0.0"
quick-xml = "=0.36.2"
