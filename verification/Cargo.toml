[package]
name = "tide_diesel"
version = "0.1.0"
edition = "2021"
publish = false

[dependencies]
tide = "*"
async-std = "*"
diesel = { version = "*", features = ["postgres", "r2d2"] }
