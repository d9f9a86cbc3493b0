[package]
name = "container_runtime"
version = "0.1.0"
edition = "2021"
publish = false

[dependencies]
clap = { version = "*", features = ["derive"] }
flate2 = "*"
nix = { version = "*", features = ["sched", "mount", "hostname", "signal", "process", "fs"] }
tar = "*"
