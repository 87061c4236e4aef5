[package]
name = "native_events"
version = "0.1.0"
edition = "2021"
publish = false

[dependencies]
log = "0.3"
simplelog = "0.4"
log-panics = "1"
libc = "0.2"
objc = "0.2"
cocoa = "0.9"
core-graphics = "0.8"
winapi = "0.2"
user32-sys = "0.2"
kernel32-sys = "0.2"
dwmapi-sys = "0.1"
