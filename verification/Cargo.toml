[package]
name = "rd-engine"
version = "0.1.0"
edition = "2021"
publish = false

[dependencies]
serde_json = "=1.0.154"
zstd = "=0.13.4"
zeroize = "=1.9.1"
base64 = "=0.22.1"
uuid = { version = "=1.29.0", features = ["v4"] }
tokio = { version = "=1.54.1", features = ["rt-multi-thread", "net", "io-util", "signal", "sync", "time", "macros"] }
tokio-util = "=0.7.20"
napi-ohos = "=1.2.0"
winapi = { version = "=0.3.9", features = ["winuser"] }
