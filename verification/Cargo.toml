[package]
name = "you_should_not_pass"
version = "0.1.0"
edition = "2021"
publish = false

[dependencies]
aes-gcm = "0.10"
base64 = "0.22"
diesel = { version = "2", features = ["sqlite", "r2d2"] }
dotenv = "0.15"
pam = "0.7"
reqwest = "0.12"
tokio = { version = "1", features = ["full"] }
whoami = "1"
