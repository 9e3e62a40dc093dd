[package]
name = "uad_gui"
version = "0.1.0"
edition = "2021"
publish = false

[dependencies]
iced = { version = "=0.4.2", features = ["svg"] }
serde = { version = "1", features = ["derive"] }
serde_json = "1"
static_init = "=1.0.4"
