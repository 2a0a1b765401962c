[package]
name = "mavio"
version = "0.1.0"
edition = "2021"
publish = false

[dependencies]
sha2 = "=0.10.9"
serde = { version = "=1.0.229", features = ["derive"] }
thiserror = "=1.0.69"
mavspec = { version = "=0.6.7", features = ["rust"] }

[dev-dependencies]
crc-any = "=2.5.1"
