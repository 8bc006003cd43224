[package]
name = "ackley_mc"
version = "0.1.0"
edition = "2021"

[dependencies]
rand = "0.8"
rand_chacha = "0.3"
float-cmp = "*"
itertools-num = "*"
clap = { version = "4", features = ["derive"] }
plotly = "*"
