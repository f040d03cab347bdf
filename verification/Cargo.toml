[package]
name = "idl_bindgen"
version = "0.1.0"
edition = "2021"
publish = false

[dependencies]
heck = "=0.5.0"
openssl = "=0.10.81"
anchor-idl = "=0.3.1"
serde_json = "=1.0.154"
anyhow = "=1.0.104"
log = "=0.4.34"
