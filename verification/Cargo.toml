[package]
name = "max6675-hal"
version = "0.1.0"
edition = "2021"
publish = false

[dependencies]
embedded-hal = "=0.2.7"
simmer = { version = "=0.3.0", features = ["f32"] }
ufmt = "=0.2.0"
