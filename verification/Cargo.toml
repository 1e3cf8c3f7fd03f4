[package]
name = "kernel_symbols"
version = "0.1.0"
edition = "2021"
publish = false

[dependencies]
windows = { version = "=0.58.0", features = ["Win32_Foundation", "Win32_System_Diagnostics_Debug", "Win32_System_ProcessStatus", "Win32_System_Threading"] }
