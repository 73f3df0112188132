[package]
name = "steve_viewer"
version = "0.1.0"
edition = "2021"
publish = false

[dependencies]
getopts = "*"
glium = "*"
image = { version = "*", default-features = false, features = ["png"] }
inotify = "*"
