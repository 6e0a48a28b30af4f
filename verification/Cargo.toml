[package]
name = "crates-io-cli"
version = "0.1.0"
edition = "2021"
publish = false

[dependencies]
termion = "1.5"
curl = "0.4"
clap = "2"
futures = "0.1"
futures-cpupool = "0.1"
tokio-core = "0.1"
tokio-curl = "0.1"
rustc-serialize = "0.3"
prettytable-rs = "0.8"
crates-index-diff = "7"
