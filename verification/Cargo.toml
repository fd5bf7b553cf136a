[package]
name = "pipeline"
version = "0.1.0"
edition = "2021"
publish = false

[dependencies]
async-trait = "0.1"
futures = "0.3"
thingbuf = "0.1"
tokio = { version = "1", features = ["rt-multi-thread", "macros", "sync", "time", "signal"] }
