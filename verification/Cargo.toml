[package]
name = "relational_dsl"
version = "0.1.0"
edition = "2021"
publish = false

[dependencies]
diesel = { version = "2", features = ["postgres_backend"] }
diesel-dynamic-schema = "*"
graphql-parser = "*"
thiserror = "*"
