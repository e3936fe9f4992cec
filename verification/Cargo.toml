[package]
name = "lights"
version = "0.1.0"
edition = "2021"
publish = false

[dependencies]
serde_json = "1"
serde = "1"
serde_derive = "1"
hyper = "0.10"
hyper-native-tls = "0.3"
