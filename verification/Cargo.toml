[package]
name = "visa_case_core"
version = "0.1.0"
edition = "2021"
publish = false

[dependencies]
axum = "*"
chrono = { version = "*", default-features = false, features = ["clock", "serde"] }
dotenv = "*"
reqwest = { version = "*", default-features = false, features = ["json"] }
rust_decimal = { version = "*", features = ["serde"] }
serde_json = "*"
sqlx = { version = "*", default-features = false, features = ["postgres", "runtime-tokio", "chrono", "rust_decimal", "uuid"] }
tokio = { version = "*", features = ["macros", "rt-multi-thread", "net", "time"] }
tower-http = { version = "*", features = ["cors"] }
uuid = { version = "*", features = ["serde"] }
