[package]
name = "eos-stream"
version = "0.1.0"
edition = "2021"
publish = false

[dependencies]
anyhow = "=1.0.104"
clap = { version = "=4.6.7", features = ["derive"] }
console = "=0.16.6"
ctrlc = "=3.5.2"
gphoto2 = "=3.4.1"
image = "=0.25.10"
libc = "=0.2.191"
usb-gadget = "=1.3.0"
