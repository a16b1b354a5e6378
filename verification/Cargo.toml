[package]
name = "usage_tracker"
version = "0.1.0"
edition = "2021"
publish = false

[dependencies]
chrono = "0.4"
md5 = "0.7"
once_cell = "1"
serde = { version = "1", features = ["derive"] }
tokio = { version = "1", features = ["time"] }
winapi = { version = "0.3", features = ["handleapi", "minwindef", "processthreadsapi", "psapi", "winnt", "winuser"] }
