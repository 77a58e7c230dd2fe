[package]
name = "paa5100je_pmw3901"
version = "0.1.0"
edition = "2021"
publish = false

[dependencies]
embedded-hal-async = { version = "1.0", features = ["defmt-03"] }
defmt = "0.3"
