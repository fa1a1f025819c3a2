[package]
name = "baidu_netdisk_sdk"
version = "0.1.3"
edition = "2021"
publish = false

[dependencies]
md5 = "0.7"
urlencoding = "2"
serde_urlencoded = "0.7"
serde_json = "1"
serde = { version = "1", features = ["derive"] }
url = "2"
reqwest = { version = "0.12", default-features = false, features = ["json", "multipart", "stream", "rustls-tls"] }
tokio = { version = "1", features = ["full"] }
futures = "0.3"
log = "0.4"
thiserror = "1"
async-trait = "0.1"
dotenv = "0.15"
