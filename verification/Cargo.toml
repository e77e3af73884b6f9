[package]
name = "tinywar"
version = "0.1.0"
edition = "2021"
publish = false

[dependencies]
pathfinding = "*"
rand = "*"
regex = "*"
serde = { version = "*", features = ["derive"] }
bincode = { version = "*", features = ["serde"] }
strum = { version = "*", features = ["derive"] }
itertools = "*"
bimap = "*"
