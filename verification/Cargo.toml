[package]
name = "transfer_executor"
version = "0.1.0"
edition = "2021"
publish = false

[dependencies]
ethers = { version = "2", default-features = false, features = ["rustls"] }
eyre = "0.6"
tokio = { version = "1", features = ["macros", "rt-multi-thread", "time"] }
