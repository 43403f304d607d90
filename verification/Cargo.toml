[package]
name = "preconfig_tester"
version = "0.1.0"
edition = "2021"
publish = false

[dependencies]
regex = "1"
ureq = "2"
sysinfo = "0.32"
