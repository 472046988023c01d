[package]
name = "bpftrace_jobs"
version = "0.1.0"
edition = "2021"
publish = false

[dependencies]
uuid = { version = "*", features = ["v4"] }
tokio = { version = "*", features = ["full"] }
serde = { version = "*", features = ["derive"] }
anyhow = "*"
dotenv = "*"
rpassword = "*"
rmcp = "*"
tracing = "*"
tracing-subscriber = { version = "*", features = ["env-filter"] }
