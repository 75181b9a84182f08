[package]
name = "email_image"
version = "0.1.0"
edition = "2021"
publish = false

[dependencies]
clap = "=2.34.0"
futures = "=0.1.31"
hyper = "=0.11.27"
image = "=0.23.14"
imageproc = "=0.22.0"
rusttype = "=0.9.3"
tokio-core = "=0.1.18"
zip = { version = "2", default-features = false, features = ["deflate"] }

[dev-dependencies]
regex = "=1.13.1"
