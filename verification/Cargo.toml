[package]
name = "focus_passion"
version = "0.1.0"
edition = "2021"
publish = false

[dependencies]
nanoid = "=0.4.0"
uuid = { version = "=1.29.0", features = ["v4"] }
seahash = "=4.1.0"
serde_with = { version = "=3.24.0", features = ["chrono"] }
serde = { version = "=1.0.229", features = ["derive"] }
mongodb = { version = "=3.9.1", default-features = false, features = ["compat-3-0-0", "rustls-tls"] }
rocket = { version = "=0.5.2", features = ["json"] }
rocket_dyn_templates = { version = "=0.2.0", features = ["tera"] }
dotenv = "=0.15.0"
