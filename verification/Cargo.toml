[package]
name = "ydb"
version = "0.1.0"
edition = "2021"
publish = false

[dependencies]
http = "=1.5.0"
tonic = { version = "=0.14.6", features = ["tls-native-roots", "tls-ring"] }
tokio = { version = "=1.53.2", features = ["full"] }
tokio-stream = "=0.1.19"
futures-util = "=0.3.34"
