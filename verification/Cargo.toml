[package]
name = "gemclient"
version = "0.1.0"
edition = "2021"
publish = false

[dependencies]
mime = "*"
url = "*"
tokio = { version = "*", default-features = false, features = ["io-util", "net", "time"] }
async-native-tls = { version = "*", default-features = false, features = ["runtime-tokio"] }
