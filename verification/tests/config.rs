use hermes_sdk::config::{Config, EbayConfig, EtsyConfig, StripeConfig};

#[test]
fn it_works() {
    assert_eq!(2 + 2, 4);
}

#[test]
fn ebay_config_starts_empty_and_on_the_sandbox() {
    let config = EbayConfig::new();
    assert_eq!(config.app_id, "");
    assert_eq!(config.cert_id, "");
    assert_eq!(config.dev_id, None);
    assert!(config.sandbox);
    assert_eq!(config.oauth_token, None);
}

#[test]
fn ebay_config_default_is_new() {
    let config = EbayConfig::default();
    assert_eq!(config.app_id, "");
    assert_eq!(config.cert_id, "");
    assert_eq!(config.dev_id, None);
    assert!(config.sandbox);
    assert_eq!(config.oauth_token, None);
}

#[test]
fn ebay_builders_replace_one_field_each() {
    let config = EbayConfig::new()
        .with_app_id("app")
        .with_cert_id("cert")
        .with_dev_id("dev")
        .with_sandbox(false)
        .with_oauth_token("user-token");
    assert_eq!(config.app_id, "app");
    assert_eq!(config.cert_id, "cert");
    assert_eq!(config.dev_id.as_deref(), Some("dev"));
    assert!(!config.sandbox);
    assert_eq!(config.oauth_token.as_deref(), Some("user-token"));

    let again = config.with_app_id("other");
    assert_eq!(again.app_id, "other");
    assert_eq!(again.cert_id, "cert");
    assert_eq!(again.dev_id.as_deref(), Some("dev"));
    assert!(!again.sandbox);
    assert_eq!(again.oauth_token.as_deref(), Some("user-token"));
}

#[test]
fn ebay_base_url_follows_the_sandbox_flag() {
    assert_eq!(EbayConfig::new().base_url(), "https://api.sandbox.ebay.com");
    assert_eq!(
        EbayConfig::new().with_sandbox(true).base_url(),
        "https://api.sandbox.ebay.com"
    );
    assert_eq!(
        EbayConfig::new().with_sandbox(false).base_url(),
        "https://api.ebay.com"
    );
}

#[test]
fn ebay_hosts_differ_only_by_the_sandbox_label() {
    let sandbox = EbayConfig::new().with_sandbox(true).base_url();
    let production = EbayConfig::new().with_sandbox(false).base_url();
    assert_eq!(sandbox.replace("sandbox.", ""), production);
}

#[test]
fn etsy_config_builders_and_url() {
    let config = EtsyConfig::new();
    assert_eq!(config.api_key, "");
    assert!(config.sandbox);
    let config = config.with_api_key("key").with_sandbox(false);
    assert_eq!(config.api_key, "key");
    assert!(!config.sandbox);
    assert_eq!(config.base_url(), "https://openapi.etsy.com/v3");
    assert_eq!(EtsyConfig::default().base_url(), "https://openapi.etsy.com/v3");
    assert_eq!(EtsyConfig::default().api_key, "");
    assert!(EtsyConfig::default().sandbox);
}

#[test]
fn stripe_config_builders_and_url() {
    let config = StripeConfig::new();
    assert_eq!(config.secret_key, "");
    assert_eq!(config.publishable_key, None);
    assert!(config.sandbox);
    let config = config
        .with_secret_key("sk_test")
        .with_publishable_key("pk_test")
        .with_sandbox(false);
    assert_eq!(config.secret_key, "sk_test");
    assert_eq!(config.publishable_key.as_deref(), Some("pk_test"));
    assert!(!config.sandbox);
    assert_eq!(config.base_url(), "https://api.stripe.com");
    assert_eq!(StripeConfig::default().secret_key, "");
    assert_eq!(StripeConfig::default().publishable_key, None);
    assert!(StripeConfig::default().sandbox);
}

#[test]
fn config_sections_are_set_one_by_one() {
    let config = Config::new();
    assert!(config.ebay.is_none());
    assert!(config.etsy.is_none());
    assert!(config.stripe.is_none());

    let config = config.with_ebay(EbayConfig::new().with_app_id("app"));
    assert_eq!(config.ebay.as_ref().map(|c| c.app_id.as_str()), Some("app"));
    assert!(config.etsy.is_none());
    assert!(config.stripe.is_none());

    let config = config.with_etsy(EtsyConfig::new().with_api_key("key"));
    assert_eq!(config.ebay.as_ref().map(|c| c.app_id.as_str()), Some("app"));
    assert_eq!(config.etsy.as_ref().map(|c| c.api_key.as_str()), Some("key"));
    assert!(config.stripe.is_none());

    let config = config.with_stripe(StripeConfig::new().with_secret_key("sk"));
    assert_eq!(config.ebay.as_ref().map(|c| c.app_id.as_str()), Some("app"));
    assert_eq!(config.etsy.as_ref().map(|c| c.api_key.as_str()), Some("key"));
    assert_eq!(
        config.stripe.as_ref().map(|c| c.secret_key.as_str()),
        Some("sk")
    );

    let empty = Config::default();
    assert!(empty.ebay.is_none() && empty.etsy.is_none() && empty.stripe.is_none());
}

#[test]
fn config_clone_keeps_every_field() {
    let config = EbayConfig::new()
        .with_app_id("app")
        .with_cert_id("cert")
        .with_dev_id("dev")
        .with_sandbox(false);
    let copy = config.clone();
    assert_eq!(copy.app_id, config.app_id);
    assert_eq!(copy.cert_id, config.cert_id);
    assert_eq!(copy.dev_id, config.dev_id);
    assert_eq!(copy.sandbox, config.sandbox);
    assert_eq!(copy.oauth_token, config.oauth_token);
}
