[package]
name = "jolt"
version = "0.1.0"
edition = "2021"
publish = false

[dependencies]
ark-bn254 = "0.4"
ark-ec = "0.4"
ark-ff = "0.4"
ark-serialize = "0.4"
base64 = "0.22"
clap = { version = "4", features = ["derive"] }
dirs = "5"
eyre = "0.6"
merlin = "3"
rand = "0.8"
reqwest = { version = "0.11", features = ["blocking", "json"] }
serde_json = "1"
sysinfo = "0.30"
target-lexicon = "0.12"
