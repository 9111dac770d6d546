[package]
name = "fakecam"
version = "0.1.0"
edition = "2021"
publish = false

[dependencies]
mime = "*"
actix-web = { version = "*", default-features = false, features = ["macros"] }
async-stream = "*"
bytes = "*"
clap = { version = "*", features = ["derive"] }
futures-util = "*"
mimalloc = "*"

[dev-dependencies]
multipart-stream = "*"
