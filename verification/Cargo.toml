[package]
name = "oto"
version = "0.1.0"
edition = "2021"
publish = false

[dependencies]
aes-gcm = "=0.11.1"
chacha20poly1305 = "=0.11.0"
davey = "=0.2.0"
futures-util = { version = "=0.3.34", features = ["channel", "sink"] }
getrandom = "=0.4.3"
rcgen = "=0.14.10"
rtrb = "=0.4.1"
rustix = { version = "=1.1.6", features = ["net", "time"] }
rustls = "=0.23.46"
serde = { version = "=1.0.229", features = ["derive"] }
serde_json = "=1.0.154"
thiserror = "=2.0.21"
tokio = { version = "=1.54.1", features = ["full", "test-util"] }
tokio-rustls = "=0.26.6"
tokio-tungstenite = { version = "=0.30.0", features = ["rustls-tls-webpki-roots"] }

[dev-dependencies]
openmls = "=0.8.3"
openmls_basic_credential = "=0.5.0"
openmls_rust_crypto = "=0.5.1"
