[package]
name = "cloudflare_r2_rs"
version = "0.1.0"
edition = "2021"
publish = false

[dependencies]
aws-sdk-s3 = "*"
mime_guess = "2"
tokio = { version = "1", features = ["macros", "rt-multi-thread", "fs"] }
dotenv = "*"
log = "*"
