[package]
name = "bevy_pipe_affect"
version = "0.1.0"
edition = "2021"
publish = false

[dependencies]
either = "1"
bevy = { version = "0.17", default-features = false, features = ["std", "bevy_asset"] }
variadics_please = "1"
proc-macro2 = "1"
quote = "1"
syn = { version = "2", features = ["full"] }
