[package]
name = "hipocast"
version = "0.1.0"
edition = "2021"
publish = false

[dependencies]
image = { version = "=0.25.10", default-features = false }
num_cpus = "=1.17.0"
serde = { version = "=1.0.229", features = ["derive"] }
serde_json = "=1.0.154"
rusqlite = { version = "=0.32.1", features = ["bundled"] }
chrono = "=0.4.45"
uuid = { version = "=1.29.0", features = ["v4"] }
tracing = "=0.1.44"
tracing-subscriber = { version = "=0.3.23", features = ["env-filter", "time"] }
tracing-appender = "=0.2.5"
dirs = "=5.0.1"
axum = "=0.7.9"
tokio = { version = "=1.54.1", features = ["full"] }
tower-http = { version = "=0.5.2", features = ["fs", "cors"] }
windows-capture = "=1.4.4"
windows = { version = "=0.58.0", features = ["Win32_Media_Audio", "Win32_Foundation", "Win32_System_Com", "Win32_System_Com_StructuredStorage", "Win32_System_Pipes", "Win32_Storage_FileSystem", "Win32_System_Threading", "Win32_Security", "Win32_System_IO"] }
