[package]
name = "he_keyboard"
version = "0.1.0"
edition = "2021"
publish = false

[dependencies]
at32f4xx-pac = { version = "=0.4.0", features = ["at32f405"] }
cortex-m = "=0.7.10"
cortex-m-rt = "=0.7.7"
panic-halt = "=1.0.0"
