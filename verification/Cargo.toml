[package]
name = "procdeck"
version = "0.1.0"
edition = "2021"
publish = false

[dependencies]
libc = "=0.2.191"
nix = { version = "=0.29.0", features = ["signal"] }
serde = { version = "=1.0.229", features = ["derive"] }
sysinfo = { version = "=0.30.13", default-features = false }
windows-sys = { version = "0.59", features = ["Win32_Foundation", "Win32_System_Diagnostics_ToolHelp", "Win32_System_Threading"] }
