[package]
name = "ble_watcher"
version = "0.1.0"
edition = "2021"
publish = false

[dependencies]
windows = { version = "=0.58.0", features = ["Devices_Bluetooth", "Devices_Bluetooth_Advertisement", "Foundation", "Foundation_Collections", "Storage_Streams"] }
windows-core = "=0.58.0"
