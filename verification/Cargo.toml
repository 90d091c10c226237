[package]
name = "rustls_cng"
version = "0.1.0"
edition = "2021"
publish = false

[dependencies]
windows-sys = { version = "0.61", features = ["Win32_Foundation", "Win32_Security_Cryptography"] }
