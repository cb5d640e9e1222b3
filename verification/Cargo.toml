[package]
name = "my_reboot"
version = "0.1.0"
edition = "2021"
publish = false
