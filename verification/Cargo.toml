[package]
name = "hello_osm"
version = "0.1.0"
edition = "2021"
publish = false

[dependencies]
axum = "=0.8.9"
clap = { version = "=4.6.7", features = ["derive", "env"] }
geojson = "=1.0.0"
httpdate = "=1.0.3"
reqwest = { version = "=0.13.5", default-features = false, features = ["json", "query"] }
secrecy = "=0.10.3"
serde = { version = "=1.0.229", features = ["derive"] }
tokio = { version = "=1.53.2", features = ["macros", "rt-multi-thread", "net", "time"] }
tower-http = { version = "=0.7.1", features = ["trace"] }
tracing = "=0.1.44"
tracing-subscriber = { version = "=0.3.23", features = ["env-filter", "fmt"] }
validator = { version = "=0.21.0", features = ["derive"] }
