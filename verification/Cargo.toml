[package]
name = "ostree_repo_utils"
version = "0.1.0"
edition = "2021"
publish = false

[dependencies]
anyhow = "1"
aws-config = "1"
aws-sdk-kms = "1"
base64 = "0.22"
clap = { version = "4", features = ["derive"] }
gio = "0.20"
glib = "0.20"
ostree = "0.20"
tokio = { version = "1", features = ["rt-multi-thread", "macros"] }
