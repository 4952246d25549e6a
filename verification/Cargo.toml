[package]
name = "minecraft_bots"
version = "0.1.0"
edition = "2021"
publish = false

[dependencies]
anyhow = "=1.0.104"
azalea = "=0.4.0"
azalea-chat = "=0.4.0"
azalea-protocol = "=0.4.0"
clap = { version = "=4.6.7", features = ["derive"] }
crossterm = "=0.25.0"
num_cpus = "=1.17.0"
tokio = { version = "=1.54.1", features = ["rt-multi-thread", "sync"] }
tui = "=0.19.0"
