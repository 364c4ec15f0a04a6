[package]
name = "tokenbridge"
version = "0.1.0"
edition = "2021"
publish = false

[dependencies]
secp256k1 = { version = "*", features = ["recovery"] }
web3 = { version = "*", default-features = false, features = ["http", "signing"] }
hex = "*"
serde = { version = "*", features = ["derive"] }
serde_json = "*"
uuid = { version = "*", features = ["v4", "v5"] }
chrono = "*"
jsonwebtoken = "*"
axum = "*"
axum-extra = { version = "*", features = ["cookie"] }
tokio = { version = "*", features = ["full"] }
tower-http = { version = "*", features = ["cors"] }
reqwest = { version = "*", default-features = false, features = ["json"] }
dotenvy = "*"

[dev-dependencies]
rlp = "*"
