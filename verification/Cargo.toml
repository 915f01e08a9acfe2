[package]
name = "flight_sql_scenario"
version = "0.1.0"
edition = "2021"
publish = false

[dependencies]
arrow-array = "54"
arrow-flight = { version = "54", features = ["flight-sql-experimental"] }
arrow-schema = "54"
futures = "0.3"
once_cell = "1"
prost = "0.13"
tonic = "0.12"
