[package]
name = "os_pipe"
version = "0.1.0"
edition = "2021"
publish = false

[dependencies]
libc = "*"
rustix = { version = "*", features = ["pipe", "stdio"] }
windows-sys = { version = "*", features = ["Win32_Foundation", "Win32_Security", "Win32_System_Console", "Win32_System_Pipes", "Win32_System_Threading"] }
