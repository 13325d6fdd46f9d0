[package]
name = "runners"
version = "0.1.0"
edition = "2021"
publish = false

[dependencies]
tempfile = "=3.27.0"
nix = { version = "=0.31.3", features = ["signal", "fs"] }
psutil = "=3.3.0"
duct = "=1.1.2"
tokio = { version = "=1.53.2", features = ["full"] }
chrono = "=0.4.45"
warp = "=0.3.7"
reqwest = { version = "=0.13.5", default-features = false, features = ["blocking", "json"] }
serde = { version = "=1.0.229", features = ["derive"] }
structopt = "=0.3.26"
linefeed = "=0.6.0"
bytes = "=1.12.1"
libc = "=0.2.190"
