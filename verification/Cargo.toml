[package]
name = "air_sensors"
version = "0.1.0"
edition = "2021"
publish = false

[dependencies]
chacha20poly1305 = "0.10"
memchr = "2"
i2cdev = "0.6"
spidev = "0.6"
serialport = { version = "4", default-features = false }
rustix = { version = "1", features = ["fs"] }
tokio = { version = "1", features = ["fs", "io-util", "time", "rt", "rt-multi-thread", "sync", "macros"] }
uom = "0.37"
serde = { version = "1", features = ["derive"] }
serde_json = "1"
thiserror = "2"
tracing = "0.1"
tracing-subscriber = "0.3"
kanal = "0.1"
tokio-util = { version = "0.7", features = ["rt"] }
futures = "0.3"
chrono = "0.4"
