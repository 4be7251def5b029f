[package]
name = "credential_check"
version = "0.1.0"
edition = "2021"
publish = false

[dependencies]
actix-web = "*"
serde = { version = "*", features = ["derive"] }
thiserror = "*"
utoipa = { version = "*", features = ["actix_extras"] }
utoipa-swagger-ui = { version = "*", features = ["actix-web", "vendored"] }
