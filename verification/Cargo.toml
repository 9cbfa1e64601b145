[package]
name = "wxwarn"
version = "0.1.0"
edition = "2021"
publish = false

[dependencies]
clap = { version = "*", features = ["derive"] }
flate2 = "*"
geo = "*"
reqwest = { version = "*", default-features = false, features = ["blocking", "json", "rustls-tls"] }
serde = { version = "*", features = ["derive"] }
serde_derive = "*"
serde_json = "*"
shapefile = { version = "*", features = ["geo-types"] }
tar = "*"
tempfile = "*"
