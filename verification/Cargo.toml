[package]
name = "nitro_ra"
version = "0.1.0"
edition = "2021"
publish = false

[dependencies]
aws-nitro-enclaves-nsm-api = "=0.5.2"
base64 = "=0.9.3"
chrono = "=0.4.45"
clap = "=2.34.0"
http_req = "=0.7.2"
ring = "=0.16.20"
rocket = "=0.4.11"
rustls = { version = "=0.19.1", features = ["dangerous_configuration"] }
serde_bytes = "=0.11.19"
serde_cbor = "=0.11.2"
tempfile = "=3.27.0"
webpki = "=0.21.4"

[dev-dependencies]
bit-vec = "=0.6.3"
num-bigint = "=0.2.6"
yasna = { version = "=0.3.2", features = ["bit-vec", "num-bigint", "chrono"] }
