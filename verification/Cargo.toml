[package]
name = "hermes_sdk"
version = "0.1.0"
edition = "2021"
publish = false

[dependencies]
anyhow = "1"
reqwest = { version = "0.12", features = ["json"] }
serde = { version = "1", features = ["derive"] }
serde_json = "1"
thiserror = "1"
tokio = { version = "1", features = ["sync"] }
tracing = "0.1"
hermes-ebay-buy-browse = "*"
hermes-ebay-buy-feed = "*"
hermes-ebay-buy-marketing = "*"
hermes-ebay-buy-offer = "*"
hermes-ebay-buy-order = "*"
hermes-ebay-commerce-catalog = "*"
hermes-ebay-commerce-identity = "*"
hermes-ebay-commerce-taxonomy = "*"
hermes-ebay-commerce-translationbeta = "*"
hermes-ebay-sell-account = "*"
hermes-ebay-sell-analytics = "*"
hermes-ebay-sell-compliance = "*"
hermes-ebay-sell-finances = "*"
hermes-ebay-sell-fulfillment = "*"
hermes-ebay-sell-inventory = "*"
hermes-ebay-sell-logistics = "*"
hermes-ebay-sell-metadata = "*"
hermes-ebay-sell-negotiation = "*"
hermes-ebay-sell-recommendation = "*"
