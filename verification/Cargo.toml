[package]
name = "fibers_http_server"
version = "0.1.0"
edition = "2021"
publish = false

[dependencies]
bytecodec = { version = "=0.4.15", features = ["tokio-async"] }
factory = "=0.1.2"
fibers = "=0.1.13"
futures = { version = "=0.3.34", features = ["compat"] }
httpcodec = "=0.2.3"
prometrics = "=0.1.13"
slog = "=2.8.2"
tokio = { version = "=1.54.1", features = ["net", "rt", "macros", "io-util"] }
url = "=2.5.8"
