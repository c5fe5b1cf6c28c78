[package]
name = "discord_ipc"
version = "0.1.0"
edition = "2021"
publish = false

[dependencies]
async-net = "*"
async-trait = "*"
futures-lite = "*"
serde_json = "*"
