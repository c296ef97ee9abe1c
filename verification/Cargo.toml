[package]
name = "signal_analyser"
version = "0.1.0"
edition = "2021"
publish = false

[dependencies]
anyhow = "=1.0.104"
probe-rs = "=0.32.0"
cortex-m = { version = "=0.7.10", features = ["critical-section-single-core"] }
cortex-m-rt = "=0.7.7"
defmt = "=1.2.0"
defmt-rtt = "=1.3.1"
panic-probe = "=1.0.0"
panic-halt = "=1.0.0"
embassy-time = "=0.5.1"
