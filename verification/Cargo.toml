[package]
name = "image_upload"
version = "0.1.0"
edition = "2021"
publish = false

[dependencies]
image = { version = "0.24", default-features = false, features = ["jpeg", "png"] }
uuid = { version = "1", features = ["v7"] }
actix-web = { version = "4", default-features = false, features = ["macros"] }
actix-multipart = { version = "0.6", default-features = false }
actix-files = "0.6"
actix-cors = "0.6"
futures = "0.3"
serde = { version = "1", features = ["derive"] }
serde_json = "1"
