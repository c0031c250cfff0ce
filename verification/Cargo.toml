[package]
name = "qpager"
version = "0.1.0"
edition = "2021"
publish = false

[dependencies]
hex = "0.4"
openssl = "0.10"
serde = { version = "1", features = ["derive"] }
serde_json = "1"
tungstenite = "0.20"
diesel = { version = "2", features = ["postgres"] }
dotenv = "0.15"
log = "0.4"
fern = { version = "0.6", features = ["colored"] }
chrono = "0.4"
threadpool = "1.8"
num_cpus = "1"
