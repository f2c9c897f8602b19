[package]
name = "bassin"
version = "0.1.0"
edition = "2021"
publish = false

[dependencies]
serde = { version = "1", features = ["derive"] }
serde_json = "1"
sysfs_gpio = "0.6"
linux-embedded-hal = "0.4"
i2cdev = "0.6"
chrono = { version = "0.4", default-features = false, features = ["clock"] }
websocket = { version = "0.27", default-features = false, features = ["sync"] }
log = "0.4"
egui = "0.27"
eframe = { version = "0.27", default-features = false, features = ["default_fonts"] }
egui_extras = { version = "0.27", default-features = false }
egui-modal = "0.3"
rfd = { version = "0.14", default-features = false }
wasm-sockets = "1"
wasm-bindgen = "0.2"
wasm-bindgen-futures = "0.4"
console_log = "1"
console_error_panic_hook = "0.1"
