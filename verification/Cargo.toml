[package]
name = "dma_poc"
version = "0.1.0"
edition = "2021"
publish = false

[dependencies]
stable_deref_trait = { version = "1", default-features = false }
stm32f3 = { version = "*", features = ["stm32f303"] }
