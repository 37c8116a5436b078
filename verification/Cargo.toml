[package]
name = "print_bytes"
version = "2.0.0"
edition = "2021"
publish = false

[dependencies]
windows-sys = { version = "0.52", features = ["Win32_Foundation", "Win32_System_Console"] }
