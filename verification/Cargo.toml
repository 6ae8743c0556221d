[package]
name = "time_tracker_plugin"
version = "0.1.0"
edition = "2021"
publish = false

[dependencies]
serde_json = "=1.0.154"
time-tracker-plugin-sdk = "=0.3.1"
