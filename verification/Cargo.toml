[package]
name = "octoling"
version = "0.1.0"
edition = "2021"
publish = false

[dependencies]
hmac = "=0.13.0"
sha2 = "=0.11.0"
serde = { version = "=1.0.229", features = ["derive"] }
serde_json = "=1.0.151"
toml = "=1.1.7"
reqwest = { version = "=0.13.5", default-features = false }
tokio = { version = "=1.53.2", features = ["macros", "rt-multi-thread", "time"] }
warp = { version = "=0.4.3", features = ["server"] }
bytes = "=1.12.1"
os_pipe = "=1.2.3"
lxc-sys2 = "=1.0.0"

[dev-dependencies]
hex = "=0.4.3"
