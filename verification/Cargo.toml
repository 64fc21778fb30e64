[package]
name = "query_fuse"
version = "0.1.0"
edition = "2021"
publish = false

[dependencies]
clap = { version = "4", features = ["derive"] }
colored = "*"
datafusion = "*"
rustyline = "*"
tokio = { version = "1", features = ["macros", "rt-multi-thread"] }
