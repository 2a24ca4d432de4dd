[package]
name = "lua_engine"
version = "0.1.0"
edition = "2021"
publish = false

[dependencies]
mlua = { version = "=0.9.9", features = ["lua54", "vendored"] }
serde = { version = "1", features = ["derive"] }
configparser = "3"
dirs = "5"
encoding_rs = "=0.8.42"
