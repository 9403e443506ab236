[package]
name = "hex_connector"
version = "0.1.0"
edition = "2021"
publish = false

[dependencies]
anyhow = "=1.0.104"
base64 = "=0.22.1"
chrono = { version = "=0.4.45", default-features = false, features = ["clock"] }
crossbeam-channel = "=0.5.17"
eframe = { version = "=0.29.1", default-features = false, features = ["default_fonts", "glow"] }
egui = { version = "=0.29.1", default-features = false }
egui-winit = { version = "=0.29.1", default-features = false, features = ["x11"] }
image = { version = "=0.25.10", default-features = false, features = ["jpeg", "png"] }
reqwest = { version = "=0.12.28", default-features = false, features = ["blocking", "json", "rustls-tls"] }
serde = { version = "=1.0.229", features = ["derive"] }
serde_json = "=1.0.154"
sysinfo = { version = "=0.32.1", default-features = false, features = ["system"] }
tokio = { version = "=1.54.1", features = ["macros", "rt-multi-thread", "time"] }
