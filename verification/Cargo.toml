[package]
name = "physical_plan"
version = "0.1.0"
edition = "2021"
publish = false

[dependencies]
arrow = "*"
serde = { version = "*", features = ["derive"] }
serde_json = "*"
