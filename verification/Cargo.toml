[package]
name = "audido"
version = "0.1.0"
edition = "2021"
publish = false

[dependencies]
rand = "=0.9.5"
anyhow = "=1.0.104"
crossbeam-channel = "=0.5.17"
directories = "=6.0.0"
ratatui = "=0.29.0"
rodio = "=0.21.1"
log = "=0.4.35"
fern = "=0.7.1"
chrono = "=0.4.45"
thiserror = "=2.0.21"
lofty = "=0.22.4"
realfft = "3"
rustfft = "6"
apodize = "1"
ringbuf = "0.4"
