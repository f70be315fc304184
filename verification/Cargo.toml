[package]
name = "proxy_bridge"
version = "0.1.0"
edition = "2021"
publish = false

[dependencies]
android_logger = "=0.15.1"
jni = "=0.21.1"
libc = "=0.2.190"
log = "=0.4.34"
