[package]
name = "sui-transactional-test-runner"
version = "0.1.0"
edition = "2021"
publish = false

[dependencies]
anyhow = "=1.0.104"
async-trait = "=0.1.92"
bcs = "=0.1.6"
clap = { version = "=4.6.7", features = ["derive"] }
futures = "=0.3.34"
jsonrpsee = { version = "0.16.3", features = ["server", "macros"] }
move-core-types = "=0.0.3"
rand = "=0.8.8"
thiserror = "=1.0.69"
tokio = { version = "=1.54.1", features = ["rt-multi-thread", "macros"] }
typed-store = "0.4.0"
typed-store-derive = "0.3.0"
