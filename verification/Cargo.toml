[package]
name = "emb_public"
version = "0.1.0"
edition = "2021"
publish = false

[dependencies]
serde = { version = "1", features = ["derive"] }
serde_json = "1"
uuid = { version = "1", features = ["v4", "serde"] }
chrono = { version = "0.4", features = ["serde"] }
crossbeam = "0.8"
tokio = { version = "1", features = ["full"] }
thiserror = "1"
log = "0.4"
async-trait = "0.1"
once_cell = "1"
libc = "0.2"
