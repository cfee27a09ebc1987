//! Per-service configuration values.
//!
//! Each configuration is a plain record built step by step: `new` gives the
//! defaults and every `with_*` method replaces exactly one field.

use vstd::prelude::*;
use vstd::string::*;

verus! {

/// The text held by an optional string, if any.
pub open spec fn opt_text(value: Option<String>) -> Option<Seq<char>> {
    match value {
        Some(s) => Some(s@),
        None => None,
    }
}

/// Base address of the production eBay REST services.
pub open spec fn ebay_production_url() -> Seq<char> {
    "https://api.ebay.com"@
}

/// Base address of the eBay sandbox, which differs from production only by
/// the `sandbox.` label of its host.
pub open spec fn ebay_sandbox_url() -> Seq<char> {
    "https://api.sandbox.ebay.com"@
}

/// Base address of the Etsy Open API.
pub open spec fn etsy_url() -> Seq<char> {
    "https://openapi.etsy.com/v3"@
}

/// Base address of the Stripe API.
pub open spec fn stripe_url() -> Seq<char> {
    "https://api.stripe.com"@
}

/// Configuration for eBay API.
#[derive(Debug, Clone)]
pub struct EbayConfig {
    /// Public application identifier (the OAuth client id).
    pub app_id: String,
    /// Confidential certificate identifier (the OAuth client secret).
    pub cert_id: String,
    /// Developer identifier; not part of the token exchange.
    pub dev_id: Option<String>,
    /// Whether calls go to the sandbox rather than to production.
    pub sandbox: bool,
    /// A user token obtained elsewhere, if any.
    pub oauth_token: Option<String>,
}

/// What an [`EbayConfig`] holds, as mathematical values.
pub struct EbayConfigView {
    pub app_id: Seq<char>,
    pub cert_id: Seq<char>,
    pub dev_id: Option<Seq<char>>,
    pub sandbox: bool,
    pub oauth_token: Option<Seq<char>>,
}

impl View for EbayConfig {
    type V = EbayConfigView;

    open spec fn view(&self) -> EbayConfigView {
        EbayConfigView {
            app_id: self.app_id@,
            cert_id: self.cert_id@,
            dev_id: opt_text(self.dev_id),
            sandbox: self.sandbox,
            oauth_token: opt_text(self.oauth_token),
        }
    }
}

impl EbayConfigView {
    /// The configuration that `EbayConfig::new` builds: no credentials,
    /// sandbox selected.
    pub open spec fn initial() -> EbayConfigView {
        EbayConfigView {
            app_id: Seq::empty(),
            cert_id: Seq::empty(),
            dev_id: None,
            sandbox: true,
            oauth_token: None,
        }
    }

    /// The base address that the `sandbox` flag selects.
    pub open spec fn base_url(self) -> Seq<char> {
        if self.sandbox {
            ebay_sandbox_url()
        } else {
            ebay_production_url()
        }
    }
}

impl EbayConfig {
    /// Empty credentials, pointing at the sandbox.
    pub fn new() -> (config: Self)
        ensures
            config@ == EbayConfigView::initial(),
    {
        EbayConfig {
            app_id: String::new(),
            cert_id: String::new(),
            dev_id: None,
            sandbox: true,
            oauth_token: None,
        }
    }

    /// Replaces the application identifier.
    pub fn with_app_id(self, app_id: &str) -> (config: Self)
        ensures
            config@ == (EbayConfigView { app_id: app_id@, ..self@ }),
    {
        EbayConfig { app_id: app_id.to_owned(), ..self }
    }

    /// Replaces the certificate identifier.
    pub fn with_cert_id(self, cert_id: &str) -> (config: Self)
        ensures
            config@ == (EbayConfigView { cert_id: cert_id@, ..self@ }),
    {
        EbayConfig { cert_id: cert_id.to_owned(), ..self }
    }

    /// Sets the developer identifier.
    pub fn with_dev_id(self, dev_id: &str) -> (config: Self)
        ensures
            config@ == (EbayConfigView { dev_id: Some(dev_id@), ..self@ }),
    {
        EbayConfig { dev_id: Some(dev_id.to_owned()), ..self }
    }

    /// Selects the sandbox (`true`) or production (`false`).
    pub fn with_sandbox(self, sandbox: bool) -> (config: Self)
        ensures
            config@ == (EbayConfigView { sandbox, ..self@ }),
    {
        EbayConfig { sandbox, ..self }
    }

    /// Sets the user token.
    pub fn with_oauth_token(self, token: &str) -> (config: Self)
        ensures
            config@ == (EbayConfigView { oauth_token: Some(token@), ..self@ }),
    {
        EbayConfig { oauth_token: Some(token.to_owned()), ..self }
    }

    /// The base address of the environment this configuration selects.
    pub fn base_url(&self) -> (url: &'static str)
        ensures
            url@ == self@.base_url(),
    {
        if self.sandbox {
            "https://api.sandbox.ebay.com"
        } else {
            "https://api.ebay.com"
        }
    }

    /// The address of one eBay service in the environment this
    /// configuration selects: the base address followed by the service's
    /// path, such as `/buy/browse/v1`.
    pub fn service_url(&self, service: &str) -> (url: String)
        ensures
            url@ == self@.base_url() + service@,
    {
        let mut url = String::from_str(self.base_url());
        url.append(service);
        url
    }
}

impl Default for EbayConfig {
    fn default() -> (config: Self)
        ensures
            config@ == EbayConfigView::initial(),
    {
        EbayConfig::new()
    }
}

/// Configuration for Etsy API.
#[derive(Debug, Clone)]
pub struct EtsyConfig {
    /// The API key issued to the application.
    pub api_key: String,
    /// Whether the application runs against test data.
    pub sandbox: bool,
}

/// What an [`EtsyConfig`] holds, as mathematical values.
pub struct EtsyConfigView {
    pub api_key: Seq<char>,
    pub sandbox: bool,
}

impl View for EtsyConfig {
    type V = EtsyConfigView;

    open spec fn view(&self) -> EtsyConfigView {
        EtsyConfigView { api_key: self.api_key@, sandbox: self.sandbox }
    }
}

impl EtsyConfigView {
    /// The configuration that `EtsyConfig::new` builds.
    pub open spec fn initial() -> EtsyConfigView {
        EtsyConfigView { api_key: Seq::empty(), sandbox: true }
    }
}

impl EtsyConfig {
    /// An empty key, with the sandbox flag set.
    pub fn new() -> (config: Self)
        ensures
            config@ == EtsyConfigView::initial(),
    {
        EtsyConfig { api_key: String::new(), sandbox: true }
    }

    /// Replaces the API key.
    pub fn with_api_key(self, api_key: &str) -> (config: Self)
        ensures
            config@ == (EtsyConfigView { api_key: api_key@, ..self@ }),
    {
        EtsyConfig { api_key: api_key.to_owned(), ..self }
    }

    /// Sets the sandbox flag.
    pub fn with_sandbox(self, sandbox: bool) -> (config: Self)
        ensures
            config@ == (EtsyConfigView { sandbox, ..self@ }),
    {
        EtsyConfig { sandbox, ..self }
    }

    /// The base address, which is the same for every environment.
    pub fn base_url(&self) -> (url: &'static str)
        ensures
            url@ == etsy_url(),
    {
        "https://openapi.etsy.com/v3"
    }
}

impl Default for EtsyConfig {
    fn default() -> (config: Self)
        ensures
            config@ == EtsyConfigView::initial(),
    {
        EtsyConfig::new()
    }
}

/// Configuration for Stripe API.
#[derive(Debug, Clone)]
pub struct StripeConfig {
    /// The secret key that authenticates server-side calls.
    pub secret_key: String,
    /// The key that may be shown to clients, if any.
    pub publishable_key: Option<String>,
    /// Whether the keys belong to test mode.
    pub sandbox: bool,
}

/// What a [`StripeConfig`] holds, as mathematical values.
pub struct StripeConfigView {
    pub secret_key: Seq<char>,
    pub publishable_key: Option<Seq<char>>,
    pub sandbox: bool,
}

impl View for StripeConfig {
    type V = StripeConfigView;

    open spec fn view(&self) -> StripeConfigView {
        StripeConfigView {
            secret_key: self.secret_key@,
            publishable_key: opt_text(self.publishable_key),
            sandbox: self.sandbox,
        }
    }
}

impl StripeConfigView {
    /// The configuration that `StripeConfig::new` builds.
    pub open spec fn initial() -> StripeConfigView {
        StripeConfigView { secret_key: Seq::empty(), publishable_key: None, sandbox: true }
    }
}

impl StripeConfig {
    /// Empty keys, with the sandbox flag set.
    pub fn new() -> (config: Self)
        ensures
            config@ == StripeConfigView::initial(),
    {
        StripeConfig { secret_key: String::new(), publishable_key: None, sandbox: true }
    }

    /// Replaces the secret key.
    pub fn with_secret_key(self, secret_key: &str) -> (config: Self)
        ensures
            config@ == (StripeConfigView { secret_key: secret_key@, ..self@ }),
    {
        StripeConfig { secret_key: secret_key.to_owned(), ..self }
    }

    /// Sets the publishable key.
    pub fn with_publishable_key(self, publishable_key: &str) -> (config: Self)
        ensures
            config@ == (StripeConfigView { publishable_key: Some(publishable_key@), ..self@ }),
    {
        StripeConfig { publishable_key: Some(publishable_key.to_owned()), ..self }
    }

    /// Sets the sandbox flag.
    pub fn with_sandbox(self, sandbox: bool) -> (config: Self)
        ensures
            config@ == (StripeConfigView { sandbox, ..self@ }),
    {
        StripeConfig { sandbox, ..self }
    }

    /// The base address, which is the same for every environment.
    pub fn base_url(&self) -> (url: &'static str)
        ensures
            url@ == stripe_url(),
    {
        "https://api.stripe.com"
    }
}

impl Default for StripeConfig {
    fn default() -> (config: Self)
        ensures
            config@ == StripeConfigView::initial(),
    {
        StripeConfig::new()
    }
}

/// Main configuration type: one optional section per marketplace.
#[derive(Debug, Clone)]
pub struct Config {
    pub ebay: Option<EbayConfig>,
    pub etsy: Option<EtsyConfig>,
    pub stripe: Option<StripeConfig>,
}

/// What a [`Config`] holds, as mathematical values.
pub struct ConfigView {
    pub ebay: Option<EbayConfigView>,
    pub etsy: Option<EtsyConfigView>,
    pub stripe: Option<StripeConfigView>,
}

impl View for Config {
    type V = ConfigView;

    open spec fn view(&self) -> ConfigView {
        ConfigView {
            ebay: match self.ebay {
                Some(c) => Some(c@),
                None => None,
            },
            etsy: match self.etsy {
                Some(c) => Some(c@),
                None => None,
            },
            stripe: match self.stripe {
                Some(c) => Some(c@),
                None => None,
            },
        }
    }
}

impl ConfigView {
    /// The configuration that `Config::new` builds: no section present.
    pub open spec fn initial() -> ConfigView {
        ConfigView { ebay: None, etsy: None, stripe: None }
    }
}

impl Config {
    /// A configuration without any section.
    pub fn new() -> (config: Self)
        ensures
            config@ == ConfigView::initial(),
    {
        Config { ebay: None, etsy: None, stripe: None }
    }

    /// Sets the eBay section.
    pub fn with_ebay(self, config: EbayConfig) -> (updated: Self)
        ensures
            updated@ == (ConfigView { ebay: Some(config@), ..self@ }),
    {
        Config { ebay: Some(config), ..self }
    }

    /// Sets the Etsy section.
    pub fn with_etsy(self, config: EtsyConfig) -> (updated: Self)
        ensures
            updated@ == (ConfigView { etsy: Some(config@), ..self@ }),
    {
        Config { etsy: Some(config), ..self }
    }

    /// Sets the Stripe section.
    pub fn with_stripe(self, config: StripeConfig) -> (updated: Self)
        ensures
            updated@ == (ConfigView { stripe: Some(config@), ..self@ }),
    {
        Config { stripe: Some(config), ..self }
    }
}

impl Default for Config {
    fn default() -> (config: Self)
        ensures
            config@ == ConfigView::initial(),
    {
        Config::new()
    }
}

} // verus!
