[package]
name = "gridlife"
version = "0.1.0"
edition = "2021"

[dependencies]
crossterm = "0.28"
fastrand = "2"
ratatui = "0.29"
