[package]
name = "ibc_conn_open_init"
version = "0.1.0"
edition = "2021"
publish = false

[dependencies]
ibc-proto = { version = "0.30", default-features = false, features = ["std"] }
