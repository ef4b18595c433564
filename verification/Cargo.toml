[package]
name = "icon-toolkit-core"
version = "0.1.0"
edition = "2021"
publish = false

[dependencies]
base64 = "0.22"
image = "0.25"
ico = "0.4"
resvg = "*"
usvg = "*"
tiny-skia = "*"
serde = { version = "1", features = ["derive"] }
serde_json = "1"
reqwest = { version = "0.12", default-features = false, features = ["json", "rustls-tls"] }
tokio = { version = "1", features = ["macros", "rt-multi-thread"] }
clap = { version = "4", features = ["derive"] }
anyhow = "1"
thiserror = "2"
