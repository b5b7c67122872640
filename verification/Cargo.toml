[package]
name = "plotters-piet"
version = "0.3.0"
edition = "2021"
publish = false

[dependencies]
druid = "=0.8.3"
piet-common = "=0.6.2"
plotters = { version = "=0.3.7", default-features = false }
plotters-backend = "=0.3.7"

[dev-dependencies]
kurbo = "=0.9.5"
piet = "=0.6.2"
