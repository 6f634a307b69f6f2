[package]
name = "egui-winit"
version = "0.1.0"
edition = "2021"
publish = false

[dependencies]
egui = "0.19"
winit = "0.29"
instant = "0.1"
webbrowser = "0.8"
tracing = "0.1"
