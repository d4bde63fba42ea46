[package]
name = "dual_digest"
version = "0.1.0"
edition = "2021"
publish = false

[dependencies]
sha1 = "*"
lz4_flex = "*"
clap = { version = "*", features = ["derive"] }
clio = { version = "*", features = ["clap-parse"] }
