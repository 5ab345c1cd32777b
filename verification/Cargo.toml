[package]
name = "nxfutil"
version = "0.1.0"
edition = "2021"
publish = false

[dependencies]
openidconnect = "=2.5.1"
uuid = { version = "=1.29.0", features = ["v4", "serde"] }
leptos = { version = "=0.2.5", features = ["stable"] }
leptos_router = { version = "=0.2.5", features = ["stable"] }
leptos_meta = { version = "=0.2.5", features = ["stable"] }
tracing = "=0.1.44"
web-sys = { version = "=0.3.106", features = ["Window", "Storage", "Location", "MouseEvent", "Event"] }
reqwest = { version = "=0.11.27", default-features = false, features = ["json", "rustls-tls"] }
async-std = "=1.13.2"
serde = { version = "=1.0.229", features = ["derive"] }
serde_json = "=1.0.154"
chrono = "=0.4.45"
actix-web = { version = "=4.18.1", default-features = false, features = ["macros"] }
