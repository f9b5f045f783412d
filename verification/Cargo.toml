[package]
name = "text_buffer"
version = "0.1.0"
edition = "2021"
publish = false

[dependencies]
memmap2 = "0.9"
iced = { version = "0.13", default-features = false, features = ["advanced", "tiny-skia"] }
