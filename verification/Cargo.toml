[package]
name = "object_thumbnail"
version = "0.1.0"
edition = "2021"
publish = false

[dependencies]
thumbnailer = "*"
mime = "*"
aws-config = "*"
aws_lambda_events = { version = "*", default-features = false, features = ["s3"] }
aws-sdk-s3 = "*"
lambda_runtime = "*"
tokio = { version = "*", features = ["macros", "rt"] }
tracing = "*"
tracing-subscriber = { version = "*", default-features = false, features = ["fmt"] }
ureq = { version = "*", default-features = false }
async-trait = "*"

[dev-dependencies]
image = { version = "*", default-features = false, features = ["png"] }
