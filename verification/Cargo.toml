[package]
name = "bb8_tiberius"
version = "0.1.0"
edition = "2021"
publish = false

[dependencies]
bb8 = "=0.9.1"
tokio = { version = "=1.53.2", features = ["net", "io-util", "rt"] }
tokio-util = { version = "=0.7.19", features = ["compat"] }
tiberius = { version = "=0.13.0", default-features = false, features = ["tds73", "sql-browser-tokio"] }
