[package]
name = "ball_settle"
version = "0.1.0"
edition = "2021"
publish = false

[dependencies]
rapier2d = "*"
