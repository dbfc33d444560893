[package]
name = "polyhedra"
version = "0.1.0"
edition = "2021"
publish = false

[dependencies]
clap = { version = "4", features = ["derive"] }
glam = "0.29"
notify = "6"
rayon = "1"
serde_json = "1"
thiserror = "1"
