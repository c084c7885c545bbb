[package]
name = "eternalmodmanager"
version = "0.1.0"
edition = "2021"
publish = false

[dependencies]
zip = "*"
serde_json = "*"
notify = "*"
notify-debouncer-mini = "*"
