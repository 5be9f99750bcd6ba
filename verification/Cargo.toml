[package]
name = "gcs_client"
version = "0.1.0"
edition = "2021"
publish = false

[dependencies]
base64 = "=0.23.1"
bytes = "*"
futures = "*"
headers = "*"
http = "*"
http-body = "*"
http-body-util = "*"
mime = "*"
percent-encoding = "=2.3.2"
serde = { version = "*", features = ["derive"] }
serde_json = "*"
serde_with = { version = "*", features = ["base64"] }
thiserror = "*"
tower = { version = "*", features = ["util"] }

[dev-dependencies]
md-5 = "*"
