[package]
name = "hw_sim"
version = "0.1.0"
edition = "2021"
publish = false

[dependencies]
rand = "*"
rand_pcg = "*"
bitvec = "1"
serde = { version = "1", features = ["derive"] }
serde_json = "1"
clap = { version = "4", features = ["derive"] }
nix = { version = "*", features = ["fs", "inotify"] }
memmap2 = "*"
tracing = "0.1"
tracing-subscriber = "0.3"
tracing-appender = "0.2"
uuid = { version = "1", features = ["v4"] }
crossbeam-channel = "0.5"
once_cell = "1"
schemars = "*"
snafu = "*"
