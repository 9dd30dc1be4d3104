[package]
name = "agenty"
version = "0.1.0"
edition = "2021"
publish = false

[dependencies]
color-eyre = "*"
dyn-clone = "*"
glob = "*"
grep = "*"
hxd = "*"
itertools = "*"
log = "*"
openai-models = "*"
reqwest = "*"
schemars = "*"
serde = { version = "*", features = ["derive"] }
serde_json = "*"
thirtyfour = "*"
thiserror = "*"
tokio = { version = "*", features = ["full"] }
tokio-stream = { version = "*", features = ["fs"] }
walkdir = "*"
