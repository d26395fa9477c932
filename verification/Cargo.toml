[package]
name = "s_kvm"
version = "0.1.0"
edition = "2021"
publish = false

[dependencies]
uuid = { version = "1", features = ["v4"] }
ring = "0.17"
rcgen = { version = "0.13", default-features = false, features = ["crypto", "ring"] }
hostname = "0.4"
serde = { version = "1", features = ["derive"] }
serde_json = "1"
bincode = "1"
toml = "0.8"
directories = "5"
tokio = { version = "1", features = ["full"] }
tokio-util = "0.7"
tracing = "0.1"
tracing-subscriber = { version = "0.3", features = ["env-filter"] }
anyhow = "1"
thiserror = "1"
async-trait = "0.1"
rustls = { version = "0.23", default-features = false, features = ["ring", "std", "tls12", "logging"] }
quinn = { version = "0.11", default-features = false, features = ["runtime-tokio", "rustls-ring", "log"] }
mdns-sd = "0.11"
rhai = "1"
evdev = { version = "0.12", features = ["tokio"] }
arboard = { version = "3", default-features = false }
x11rb = { version = "0.13", features = ["randr"] }
ringbuf = "0.4"
