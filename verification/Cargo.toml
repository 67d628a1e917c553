[package]
name = "celeste"
version = "0.1.0"
edition = "2021"
publish = false

[dependencies]
iced = { version = "0.14", default-features = false, features = ["tiny-skia", "svg", "tokio", "x11", "linux-theme-detection"] }
icondata = "*"
icondata_core = "*"
ksni = "0.3"
resvg = { version = "0.45", default-features = false }
serde = { version = "1", features = ["derive"] }
serde_json = "1"
time = "0.3"
tokio = { version = "1", features = ["rt", "rt-multi-thread", "sync"] }
tr = { version = "0.1", default-features = false }
