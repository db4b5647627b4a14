[package]
name = "pomododragon"
version = "0.1.0"
edition = "2021"
publish = false

[dependencies]
instant = "0.1"
clap = { version = "3", features = ["derive"] }
spinners = "2"
termion = "1.5"
