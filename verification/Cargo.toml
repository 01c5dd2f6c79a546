[package]
name = "tracerbench_serve"
version = "0.1.0"
edition = "2021"
publish = false

[dependencies]
base64 = "*"
bytes = "*"
futures = "*"
h2 = "*"
http = "*"
log = "*"
memmap = "*"
pretty_env_logger = "*"
regex = "*"
ring = "*"
rustls-pemfile = "*"
serde = "*"
serde_cbor = "*"
serde_derive = "*"
structopt = "*"
tokio = { version = "*", features = ["full"] }
tokio-rustls = "*"
webpki = "*"
