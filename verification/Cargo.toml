[package]
name = "ens_name_search"
version = "0.1.0"
edition = "2021"
publish = false

[dependencies]
clap = { version = "3", features = ["derive"] }
tokio = { version = "1", features = ["macros", "rt-multi-thread"] }
web3 = { version = "0.18", default-features = false, features = ["ws-tls-tokio"] }
