[package]
name = "gpui_template"
version = "0.1.0"
edition = "2021"
publish = false

[dependencies]
anyhow = "=1.0.104"
ashpd = { version = "=0.13.13", features = ["global_shortcuts"] }
async-channel = "=2.5.0"
error-location = "=0.1.0"
futures-util = "=0.3.34"
global-hotkey = "=0.9.0"
image = { version = "=0.25.10", default-features = false, features = ["png"] }
pollster = "=0.4.0"
thiserror = "=2.0.21"
