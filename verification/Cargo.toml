[package]
name = "folder_to_text"
version = "0.1.0"
edition = "2021"
publish = false

[dependencies]
content_inspector = "*"
walkdir = "*"
