[package]
name = "a11y_events"
version = "0.1.0"
edition = "2021"
publish = false

[dependencies]
accesskit = "*"
accesskit_consumer = "*"
