[package]
name = "pbb_poc"
version = "0.1.0"
edition = "2021"
publish = false

[dependencies]
alloy-eips = { version = "=2.5.0", default-features = false, features = ["std"] }
bitvec = "=1.1.1"
serde = { version = "=1.0.229", features = ["derive"] }
tokio = { version = "=1.53.2", features = ["macros", "rt", "time"] }
reqwest = { version = "=0.12.28", default-features = false, features = ["json"] }
log = "=0.4.34"
futures-util = "=0.3.34"
mev-share-sse = "=0.5.1"
