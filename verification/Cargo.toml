[package]
name = "abi_resolver"
version = "0.1.0"
edition = "2021"
publish = false

[dependencies]
actix-cors = "*"
actix-web = { version = "*", default-features = false, features = ["macros"] }
dotenvy = "*"
env_logger = "*"
ethabi = "*"
ethers = { version = "*", default-features = false }
log = "*"
reqwest = { version = "0.11", default-features = false, features = ["json", "rustls-tls"] }
serde = { version = "*", features = ["derive"] }
serde_json = "*"
tokio = { version = "*", features = ["process", "macros", "rt-multi-thread"] }
url = "*"
