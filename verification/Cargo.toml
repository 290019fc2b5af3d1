[package]
name = "actix_xml"
version = "0.1.0"
edition = "2021"
publish = false

[dependencies]
actix-web = { version = "4", default-features = false }
futures = "0.3"
mime = "0.3"
quick-xml = { version = "*", features = ["serialize"] }
serde = "1"
