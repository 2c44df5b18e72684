[package]
name = "wow_launcher"
version = "0.1.0"
edition = "2021"
publish = false

[dependencies]
futures = "0.3"
iced = { version = "0.14", default-features = false, features = ["tiny-skia", "x11", "tokio", "image-without-codecs", "advanced"] }
image = { version = "0.25", default-features = false, features = ["png"] }
portable-pty = "0.8"
rfd = { version = "*", default-features = false, features = ["xdg-portal"] }
serde = { version = "1", features = ["derive"] }
serde_json = "1"
tokio = { version = "1", features = ["net", "time", "rt"] }
vt100 = "0.16"
windows-sys = { version = "*", features = ["Win32_Foundation", "Win32_System_JobObjects", "Win32_System_Threading", "Win32_Security"] }
