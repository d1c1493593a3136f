[package]
name = "rustvncserver-android"
version = "1.1.0"
edition = "2021"
publish = false

[dependencies]
jni = "0.21"
rustvncserver = "2"
tokio = { version = "1", features = ["rt-multi-thread", "sync", "time", "macros"] }
android_logger = "0.15"
log = "0.4"
once_cell = "1.19"
