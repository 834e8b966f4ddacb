[package]
name = "track_your_day"
version = "0.1.0"
edition = "2021"
publish = false

[dependencies]
anyhow = "=1.0.104"
async-trait = "=0.1.92"
chrono = { version = "=0.4.45", features = ["serde"] }
serde = { version = "=1.0.229", features = ["derive"] }
tokio = { version = "=1.54.1", features = ["sync", "time", "macros", "rt-multi-thread"] }
crossterm = "=0.28.1"
ratatui = "=0.29.0"
sysinfo = "=0.33.1"
active-win-pos-rs = "=0.9.1"
rdev = "=0.5.3"
windows = { version = "=0.57.0", features = ["Win32_Foundation", "Win32_Security", "Win32_System_ProcessStatus", "Win32_System_SystemInformation", "Win32_System_Power", "Win32_System_Threading", "Win32_Storage_FileSystem", "Win32_System_Ioctl", "Win32_System_IO"] }
