[package]
name = "android_log"
version = "0.1.0"
edition = "2021"
publish = false

[dependencies]
log = "0.3"
android_liblog-sys = "*"
