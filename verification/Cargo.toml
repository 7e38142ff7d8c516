[package]
name = "azalea_bridge"
version = "0.1.0"
edition = "2021"
publish = false

[dependencies]
anyhow = "1"
azalea-auth = "0.6.0"
azalea-client = "0.6.0"
azalea-crypto = "0.6.0"
azalea-ecs = "0.6.0"
azalea-protocol = "0.6.0"
azalea-world = "0.6.0"
derive_more = { version = "0.99", default-features = false, features = ["deref", "deref_mut"] }
flume = "0.10"
log = "0.4"
matrix-sdk = { version = "0.6", default-features = false, features = ["rustls-tls"] }
tiny_http = "0.12"
tokio = { version = "1", features = ["rt", "macros", "time"] }
twilight-cache-inmemory = "0.15"
twilight-gateway = { version = "0.15", default-features = false, features = ["rustls-webpki-roots"] }
twilight-http = { version = "0.15", default-features = false, features = ["rustls-webpki-roots"] }
twilight-model = "0.15"
uuid = "1"
