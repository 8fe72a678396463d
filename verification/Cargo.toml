[package]
name = "aws_mpl_cxx"
version = "0.1.0"
edition = "2021"
publish = false

[dependencies]
aws-config = "*"
aws-mpl-legacy = "*"
aws-sdk-dynamodb = "*"
aws-sdk-kms = "*"
aws-smithy-types = "*"
tokio = { version = "1", features = ["rt-multi-thread"] }
cxx = "1"
