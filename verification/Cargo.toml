[package]
name = "direct2d"
version = "0.1.0"
edition = "2021"
publish = false

[dependencies]
winapi = { version = "0.3", features = ["d2d1", "d2d1_1", "dcommon", "winerror", "unknwnbase", "dwrite"] }
wio = "0.2"
