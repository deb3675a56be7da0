[package]
name = "wsl_manager_tui"
version = "0.1.0"
edition = "2021"
publish = false

[dependencies]
unicode-width = "=0.2.0"
serde = { version = "=1.0.229", features = ["derive"] }
toml = "=0.8.23"
clap = { version = "=4.6.7", features = ["derive"] }
tokio = { version = "=1.54.1", features = ["full"] }
crossterm = { version = "=0.28.1", features = ["event-stream"] }
ratatui = "=0.29.0"
futures = "=0.3.34"
color-eyre = "=0.6.5"
sysinfo = "=0.33.1"
async-trait = "=0.1.92"
thiserror = "=2.0.21"
windows-registry = "=0.5.3"
windows-sys = { version = "=0.59.0", features = ["Wdk_System_SystemInformation", "Win32_System_WindowsProgramming", "Win32_System_SystemInformation", "Win32_Foundation"] }
