[package]
name = "omc_galaxy"
version = "0.1.0"
edition = "2021"
publish = false

[dependencies]
common-game = "=3.0.0"
crossbeam-channel = "=0.5.17"
dotenv = "=0.15.0"
env_logger = "=0.11.11"
log = "=0.4.35"
rand = "=0.9.5"
rustc-hash = "=2.1.3"
