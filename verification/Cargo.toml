[package]
name = "cms_types"
version = "0.1.0"
edition = "2021"
publish = false

[dependencies]
serde = { version = "1", features = ["derive"] }
serde_json = "1"
time = { version = "0.3", features = ["parsing", "formatting", "macros", "serde"] }
url = { version = "2", features = ["serde"] }
uuid = { version = "1", features = ["v7", "serde"] }
thiserror = "1"
num_enum = "0.7"
eyre = "0.6"
