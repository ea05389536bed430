[package]
name = "pulse_spectralyzer"
version = "0.1.0"
edition = "2021"
publish = false

[dependencies]
anyhow = "1"
cpal = "0.15"
egui = { version = "0.29", default-features = false }
egui_plot = "0.29"
log = "0.4"
ringbuffer = "0.15"
rustfft = "6"
simplelog = "0.12"
