[package]
name = "stremio_service"
version = "0.1.0"
edition = "2021"
publish = false

[dependencies]
url = "=2.5.8"
urlencoding = "=2.1.3"
log = "=0.4.34"
env_logger = "=0.11.11"
open = "5"
tokio = { version = "=1.53.2", features = ["macros", "rt-multi-thread", "process", "io-util", "signal", "sync", "time"] }
reqwest = { version = "=0.13.5", default-features = false }
