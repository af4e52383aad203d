[package]
name = "sheets_bot"
version = "0.1.0"
edition = "2021"
publish = false

[dependencies]
failure = "=0.1.8"
futures = "=0.1.31"
futures-cpupool = "=0.1.8"
google-sheets4 = "=1.0.14"
hyper = "=0.10.16"
hyper-rustls = "=0.6.2"
telebot = "=0.3.1"
tokio-core = "=0.1.18"
yup-oauth2 = "=1.0.12"
