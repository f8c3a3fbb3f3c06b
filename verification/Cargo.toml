[package]
name = "rabbitmq_adapter"
version = "0.1.0"
edition = "2021"
publish = false

[dependencies]
amq-protocol = "=0.21.1"
amqp = { version = "=0.1.3", default-features = false }
futures = "=0.1.31"
lapin-futures = "=0.13.0"
tokio = "=0.1.22"
tokio-io = "=0.1.13"
