[package]
name = "mqi"
version = "0.1.0"
edition = "2021"
publish = false

[dependencies]
regex = "=1.13.1"
regex-lite = "=0.1.9"
libmqm-constants = "=0.9.0"
libmqm-sys = { version = "=0.11.0", default-features = false, features = ["link_api", "mqc_9_3_0_0"] }
libmqm-default = "=0.11.0"
thiserror = "=2.0.21"
derive_more = { version = "=2.1.1", features = ["full"] }
