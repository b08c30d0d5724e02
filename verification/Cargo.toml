[package]
name = "weixin"
version = "0.1.0"
edition = "2021"
publish = false

[dependencies]
md5 = "=0.8.1"
sha1 = "=0.11.0"
uuid = { version = "=1.29.0", features = ["v4"] }
chrono = "=0.4.45"
rand = "=0.10.3"
url = "=2.5.8"
toml = "=1.1.8"
serde = { version = "=1.0.229", features = ["derive"] }
serde_json = "=1.0.154"
serde-xml-rs = "=0.8.2"
jsonway = "=2.0.0"
iron = "=0.6.1"
router = "=0.6.0"
mount = "=0.4.0"
staticfile = "=0.5.0"
persistent = "=0.4.0"
urlencoded = "=0.6.0"
handlebars-iron = "=0.29.0"
hyper = "=0.10.16"
openssl = "=0.10.82"
cookie = "=0.18.2"
mongodb = { version = "=2.8.2", features = ["tokio-sync"] }
bson = "=2.15.0"
log = "=0.4.35"
env_logger = "=0.11.11"
lazy_static = "=1.5.1"
