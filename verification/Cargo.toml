[package]
name = "webbrowser"
version = "1.0.0"
edition = "2021"
publish = false

[dependencies]
url = "=2.5.8"
home = "=0.5.12"
jni = "0.21"
ndk-context = "0.1"
objc2 = "0.6"
objc2-core-foundation = "0.3"
objc2-foundation = "0.3"
web-sys = { version = "0.3", features = ["Window"] }
