[package]
name = "solostack_core"
version = "0.1.0"
edition = "2021"
publish = false

[dependencies]
keyring = { version = "=3.6.3", default-features = false }
jni = "=0.22.4"
