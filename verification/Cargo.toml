[package]
name = "module_fetcher"
version = "0.1.0"
edition = "2021"
publish = false

[dependencies]
chrono = { version = "=0.4.45", default-features = false, features = ["std"] }
data-url = "=0.3.2"
deno_ast = { version = "=0.53.3", default-features = false }
encoding_rs = "=0.8.42"
http = "=1.5.0"
log = "=0.4.34"
reqwest = { version = "=0.13.5", default-features = false, features = ["rustls"] }
tokio = { version = "=1.54.1", features = ["time", "sync", "rt"] }
url = "=2.5.8"
uuid = "=1.29.0"
