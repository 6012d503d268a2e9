[package]
name = "dng_convert"
version = "0.1.0"
edition = "2021"
publish = false

[dependencies]
clap = { version = "=4.6.7", features = ["string"] }
clap_complete = "=4.6.11"
clap_mangen = "=0.3.3"
image = { version = "=0.25.10", default-features = false, features = ["jpeg", "png", "tiff"] }
log = "=0.4.35"
