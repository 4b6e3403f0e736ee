[package]
name = "lizzy"
version = "0.1.0"
edition = "2021"
publish = false

[dependencies]
anyhow = "1"
clap = { version = "4", features = ["derive"] }
dbus = "0.9"
once_cell = "1"
pico-args = "0.5"
serde_json = "1"
tokio = { version = "1", features = ["macros", "rt-multi-thread"] }
zbus = { version = "4", default-features = false, features = ["tokio"] }
