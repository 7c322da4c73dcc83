[package]
name = "rotation_uploader"
version = "0.1.0"
edition = "2021"
publish = false

[dependencies]
chrono = { version = "=0.4.45", default-features = false, features = ["clock", "std"] }
dotenv = "=0.15.0"
glob = "=0.3.4"
reqwest = { version = "=0.12.28", features = ["json"] }
serde_json = "=1.0.154"
ssh2 = "=0.9.6"
tokio = { version = "=1.54.1", features = ["macros", "rt-multi-thread", "signal", "time"] }

[dev-dependencies]
tempfile = "=3.27.0"
