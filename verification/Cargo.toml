[package]
name = "motoro"
version = "0.1.0"
edition = "2021"
publish = false

[dependencies]
fontdue = "*"
log = "*"
mesura = "*"
sdl2 = "*"
serde = { version = "*", features = ["derive"] }
vulkanalia = { version = "*", features = ["libloading"] }
zune-png = "*"
