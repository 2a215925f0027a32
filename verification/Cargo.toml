[package]
name = "ort_run"
version = "0.1.0"
edition = "2021"
publish = false

[dependencies]
ort-sys = { version = "=2.0.0-rc.13", default-features = false, features = ["disable-linking"] }
thiserror = "=2.0.21"
