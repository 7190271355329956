[package]
name = "teatime"
version = "0.4.5"
edition = "2021"
publish = false

[dependencies]
futures = "0.1"
hyper = { version = "0.11", default-features = false }
rpassword = "2"
serde_json = "1"
tokio-core = "0.1"

[dev-dependencies]
nom = "3"
