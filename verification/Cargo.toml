[package]
name = "guga_ura"
version = "0.1.0"
edition = "2021"
publish = false

[dependencies]
eframe = { version = "*", default-features = false, features = ["default_fonts", "glow", "x11"] }
fnv = "=1.0.7"
log = "=0.4.34"
minhook = "=0.9.0"
once_cell = "=1.21.4"
pelite = "=0.10.0"
rfd = "*"
serde = { version = "=1.0.229", features = ["derive"] }
serde_json = "=1.0.154"
ureq = "=2.12.1"
widestring = "=1.2.1"
windebug_logger = "=0.1.4"
winreg = "=0.56.0"
