[package]
name = "viz_core"
version = "0.1.0"
edition = "2021"
publish = false

[dependencies]
bytes = "*"
futures-util = "*"
http-body = "*"
http-body-util = "*"
hyper = "*"
prometheus = "*"
serde = "*"
serde_json = "*"
sync_wrapper = "*"

[dev-dependencies]
mime = "*"
