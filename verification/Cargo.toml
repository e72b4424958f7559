[package]
name = "hacl"
version = "0.1.0"
edition = "2021"
publish = false

[dependencies]
serde_json = "*"
serde = "*"
serde_derive = "*"
clap = "*"
confy = "*"
owo-colors = "*"
reqwest = { version = "*", default-features = false, features = ["blocking"] }
skim = "*"
