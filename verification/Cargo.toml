[package]
name = "live_app_icon"
version = "0.1.0"
edition = "2021"
publish = false

[dependencies]
anyhow = "1"
chrono = "0.4"
clap = { version = "4", features = ["derive"] }
cmd_lib = "1"
colored = "2"
dirs = "5"
fern = "0.6"
fs_extra = "1"
image = { version = "0.24", default-features = false, features = ["gif", "png"] }
log = "0.4"
uuid = { version = "1", features = ["v4"] }
