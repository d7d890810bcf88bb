[package]
name = "neckcheck"
version = "0.1.0"
edition = "2021"
publish = false

[dependencies]
console = "0.15"
image = { version = "0.24", default-features = false }
imageproc = { version = "0.23", default-features = false }
nokhwa = { version = "0.10", default-features = false }
rustface = "0.1"
thiserror = "1"
