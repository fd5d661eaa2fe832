[package]
name = "wreq_tls"
version = "0.1.0"
edition = "2021"
publish = false

[dependencies]
boring2 = "5.0.0-alpha.1"
boring-sys2 = "5.0.0-alpha.1"
bytes = "=1.12.1"
http = "=1.5.0"
tokio = { version = "=1.54.1", features = ["net", "io-util"] }
tokio-boring2 = "5.0.0-alpha.1"
tower = "=0.5.3"
