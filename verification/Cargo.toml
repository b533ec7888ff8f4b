[package]
name = "eth_transfer"
version = "0.1.0"
edition = "2021"
publish = false

[dependencies]
alloy = { version = "=1.0.42", default-features = false, features = ["std", "reqwest", "provider-http", "signer-local", "network", "rpc-types"] }
alloy-chains = "*"
clap = { version = "*", default-features = false, features = ["std", "derive", "help", "usage", "error-context"] }
dotenv = "*"
eyre = "*"
serde = { version = "*", features = ["derive"] }
serde_json = "*"
tokio = { version = "*", features = ["macros", "rt-multi-thread"] }
url = "*"
