[package]
name = "rng_fitness"
version = "0.1.0"
edition = "2021"
publish = false

[dependencies]
anyhow = "1"
charts-rs = { version = "*", features = ["image-encoder"] }
directories = "*"
plotlib = "0.5"
rand = "0.8"
rand_xorshift = "0.3"
rand_xoshiro = "0.6"
