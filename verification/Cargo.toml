[package]
name = "typed_schema"
version = "0.1.0"
edition = "2021"
publish = false

[dependencies]
dotenv = "=0.15.0"
lume = "=0.13.1"
paste = "=1.0.15"
ripress = { version = "=2.5.1", features = ["with-wynd"] }
tokio = { version = "=1.54.1", features = ["full"] }
wynd = { version = "=0.12.3", features = ["with-ripress"] }
