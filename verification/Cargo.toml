[package]
name = "janux"
version = "0.1.0"
edition = "2021"
publish = false

[dependencies]
anyhow = "=1.0.104"
base64 = "=0.22.1"
dashmap = "=6.2.1"
hex = "=0.4.3"
jiff = "=0.2.39"
jsonwebtoken = "=9.3.1"
mime_guess = "=2.0.5"
percent-encoding = "=2.3.2"
prometheus = { version = "=0.14.0", default-features = false }
rand = "=0.9.5"
reqwest = { version = "0.12", default-features = false }
rsa = "=0.9.10"
salvo = { version = "=1.1.0", default-features = false, features = ["server", "http1", "oapi", "affix-state", "cookie", "rate-limiter"] }
serde = { version = "=1.0.229", features = ["derive"] }
serde_json = "=1.0.154"
sha2 = "=0.10.9"
tokio = { version = "=1.54.1", features = ["fs", "macros", "rt-multi-thread", "sync", "time"] }
tracing = "=0.1.44"
url = "=2.5.8"
urlencoding = "=2.1.3"
uuid = { version = "=1.29.0", features = ["v4", "v5", "v7"] }
webauthn-rs = { version = "=0.5.5", features = ["danger-allow-state-serialisation"] }

[dev-dependencies]
openssl = "=0.10.82"
serde_cbor_2 = "=0.13.0"
