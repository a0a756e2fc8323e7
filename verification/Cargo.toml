[package]
name = "bulk_rename"
version = "0.1.0"
edition = "2021"
publish = false

[dependencies]
regex = "1"
heck = "0.5"
mime-db = "*"
chrono = "0.4"
crossbeam = "0.8"
egui = "0.31"
egui_extras = "0.31"
egui-phosphor = "0.9"
egui-selectable-table = "0.2"
resolve-path = "0.1"
rfd = "0.15"
serde = { version = "1", features = ["derive"] }
strum = "0.26"
strum_macros = "0.26"
