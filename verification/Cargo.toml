[package]
name = "edgar_stream"
version = "0.1.0"
edition = "2021"
publish = false

[dependencies]
atom_syndication = "*"
rss = "*"
flate2 = "*"
chrono = "*"
rand = "*"
bytes = "*"
thiserror = "*"
reqwest = { version = "*", default-features = false }
tokio = { version = "*", features = ["macros", "rt-multi-thread", "time"] }
