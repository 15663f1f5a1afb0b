[package]
name = "libmpv_binding"
version = "0.1.0"
edition = "2021"
publish = false

[dependencies]
libloading = "*"
serde = { version = "*", features = ["derive"] }
serde_json = "*"
indexmap = { version = "*", features = ["serde"] }
raw-window-handle = "*"
once_cell = "*"
