[package]
name = "linkdump"
version = "0.1.0"
edition = "2021"
publish = false

[dependencies]
rtnetlink = "*"
netlink-packet-route = "*"
tokio = { version = "*", features = ["macros", "rt-multi-thread"] }
futures = "*"
env_logger = "*"
