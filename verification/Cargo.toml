[package]
name = "van_core"
version = "0.1.0"
edition = "2021"
publish = false

[dependencies]
anyhow = "=1.0.104"
clap = { version = "=4.6.7", features = ["derive"] }
crossbeam = "=0.8.5"
cursive = "=0.21.1"
futures = "=0.3.34"
libc = "=0.2.190"
libmpv = "=2.0.1"
log = "=0.4.34"
time = { version = "=0.3.55", features = ["formatting"] }
tokio = { version = "=1.53.2", features = ["rt-multi-thread"] }
youtube_dl = { version = "=0.10.0", features = ["tokio"] }
