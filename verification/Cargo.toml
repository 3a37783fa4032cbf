[package]
name = "task_agenda"
version = "0.1.0"
edition = "2021"
publish = false

[dependencies]
chrono = { version = "=0.4.45", default-features = false, features = ["std", "clock"] }
gtk = "0.16"
relm = "0.24"
relm-derive = "0.24"
