[package]
name = "partial_eth_key_cracker"
version = "0.1.0"
edition = "2021"
publish = false

[dependencies]
actix = "*"
clarity = "*"
docopt = "*"
failure = "*"
futures = "*"
hex = "0.4"
num_cpus = "1"
rand = "0.8"
serde = { version = "1", features = ["derive"] }
sysinfo = "*"
tokio = "*"
web30 = "*"
