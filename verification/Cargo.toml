[package]
name = "rafilter"
version = "0.1.0"
edition = "2021"
publish = false

[dependencies]
nftables = "0.4"
ipnet = "*"
log = "*"
env_logger = "*"
ctrlc = "*"
thiserror = "*"
nfq = "*"
