[package]
name = "query_filter"
version = "0.1.0"
edition = "2021"
publish = false

[dependencies]
chrono = { version = "0.4", features = ["serde"] }
sea-query = { version = "0.28", default-features = false, features = ["backend-postgres", "with-chrono", "with-uuid"] }
uuid = { version = "1", features = ["serde"] }
serde = { version = "1", features = ["derive"] }
serde_with = "2"
utoipa = { version = "3", features = ["chrono", "uuid"] }

[dev-dependencies]
serde-querystring = "*"
