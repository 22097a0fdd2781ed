[package]
name = "omd_transfer"
version = "0.1.0"
edition = "2021"
publish = false

[dependencies]
chrono = { version = "0.4", default-features = false, features = ["std"] }
regex = "1"
toml = "0.5"
hyper = "0.10"
dbus = { version = "0.9", features = ["vendored"] }
get_if_addrs = "0.5"
env_logger = { version = "0.11", default-features = false }
getopts = "0.2"
log = "0.4"
