[package]
name = "pwm_control"
version = "0.1.0"
edition = "2021"
publish = false

[dependencies]
anyhow = "*"
gilrs = "*"
gpio-cdev = "*"
socket2 = "*"
