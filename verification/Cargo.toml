[package]
name = "proxycfg"
version = "0.1.0"
edition = "2021"
publish = false

[dependencies]
serde_json = "1"
color-eyre = "0.6"
log = "0.4"
winapi = { version = "0.3", features = ["winhttp", "errhandlingapi", "winbase"] }
core-foundation = "0.10"
objc = "0.2"
