[package]
name = "fracmd"
version = "0.1.0"
edition = "2021"
publish = false

[dependencies]
clap = { version = "*", features = ["derive"] }
image = "*"
notify-rust = "*"
num = "*"
num_cpus = "*"
open = "*"
rand = "*"
rayon = "*"
