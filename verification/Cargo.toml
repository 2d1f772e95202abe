[package]
name = "mouse_keyboard_automation"
version = "0.1.0"
edition = "2021"
publish = false

[dependencies]
serde = { version = "=1.0.229", features = ["derive"] }
serde_json = "=1.0.154"
uuid = { version = "=1.29.0", features = ["v4"] }
rand = "=0.8.8"
tokio = { version = "=1.54.1", features = ["rt-multi-thread", "macros", "sync", "time"] }
tokio-stream = "=0.1.19"
futures-util = "=0.3.34"
warp = "=0.3.7"
enigo = "=0.1.3"
device_query = "=0.2.8"
clipboard-win = "=4.5.0"
