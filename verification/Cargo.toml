[package]
name = "dark_remote"
version = "0.1.0"
edition = "2021"
publish = false

[dependencies]
android_logger = { version = "=0.15.1", default-features = false }
axum = { version = "=0.8.9", default-features = false, features = ["http1", "tokio", "ws"] }
axum-extra = { version = "=0.12.6", default-features = false, features = ["typed-header"] }
cec_linux = "=0.2.2"
eframe = { version = "=0.33.3", default-features = false, features = ["default_fonts", "glow", "persistence", "x11"] }
egui = { version = "=0.33.3", default-features = false }
egui-winit = { version = "=0.33.3", default-features = false }
enigo = "=0.6.1"
ewebsock = { version = "=0.8.0", default-features = false }
log = "=0.4.34"
serde = { version = "=1.0.229", features = ["derive"] }
serde_json = "=1.0.154"
thiserror = "=2.0.21"
tokio = { version = "=1.54.1", features = ["macros", "net", "rt-multi-thread", "time"] }
tower-http = { version = "=0.7.1", default-features = false, features = ["fs", "trace"] }
tracing = "=0.1.44"
tracing-subscriber = { version = "=0.3.23", features = ["env-filter"] }
