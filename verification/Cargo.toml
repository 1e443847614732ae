[package]
name = "pdf_summarizer"
version = "0.1.0"
edition = "2021"
publish = false

[dependencies]
once_cell = "=1.21.4"
pdf-extract = "=0.7.12"
reqwest = { version = "=0.11.27", features = ["json"] }
serde_json = "=1.0.154"

[dev-dependencies]
http = "=0.2.12"
tokio = { version = "=1.54.1", features = ["rt"] }
