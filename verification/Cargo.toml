[package]
name = "pictou_auth"
version = "0.1.0"
edition = "2021"
publish = false

[dependencies]
actix-web = { version = "=4.18.1", default-features = false, features = ["macros"] }
base64 = "=0.21.7"
diesel = { version = "=2.3.14", default-features = false, features = ["postgres_backend", "uuid", "time"] }
futures-util = "0.3"
jsonwebtoken = { version = "=9.3.1", default-features = false }
rand = "=0.8.8"
serde = { version = "1", features = ["derive"] }
serde_json = { version = "=1.0.154", features = ["preserve_order", "raw_value"] }
time = { version = "=0.3.55", features = ["serde"] }
tracing = "0.1"
uuid = { version = "=1.29.0", features = ["serde"] }
