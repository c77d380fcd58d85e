[package]
name = "cpu_monitor"
version = "0.1.0"
edition = "2021"
publish = false

[dependencies]
sysinfo = "*"
tokio = { version = "*", features = ["rt", "time", "macros", "rt-multi-thread"] }
dotenv = "*"
