//! The two messages of the OAuth2 client-credentials exchange, as plain
//! values: the request the cache asks for and the reply it is handed.

use vstd::prelude::*;
use vstd::string::*;
use crate::config::{EbayConfig, EbayConfigView};
use crate::ebay::auth::{EbayToken, EbayTokenView};

verus! {

/// Path of the token endpoint below the base address.
pub open spec fn token_path() -> Seq<char> {
    "/identity/v1/oauth2/token"@
}

/// The grant type of the exchange.
pub open spec fn grant_type() -> Seq<char> {
    "client_credentials"@
}

/// The one scope the cache asks for: the public scope that every
/// application holds.
pub open spec fn public_scope() -> Seq<char> {
    "https://api.ebay.com/oauth/api_scope"@
}

/// A token request: a form-encoded POST to `url` under HTTP Basic
/// authentication, with the form fields `grant_type` and `scope`.
#[derive(Debug, Clone)]
pub struct TokenRequest {
    /// Address of the token endpoint.
    pub url: String,
    /// User name of the Basic authentication: the client id.
    pub username: String,
    /// Password of the Basic authentication: the client secret.
    pub password: String,
    /// Value of the form field `grant_type`.
    pub grant_type: String,
    /// Value of the form field `scope`.
    pub scope: String,
}

/// What a [`TokenRequest`] holds, as mathematical values.
pub struct TokenRequestView {
    pub url: Seq<char>,
    pub username: Seq<char>,
    pub password: Seq<char>,
    pub grant_type: Seq<char>,
    pub scope: Seq<char>,
}

impl View for TokenRequest {
    type V = TokenRequestView;

    open spec fn view(&self) -> TokenRequestView {
        TokenRequestView {
            url: self.url@,
            username: self.username@,
            password: self.password@,
            grant_type: self.grant_type@,
            scope: self.scope@,
        }
    }
}

/// The request that credentials `config` call for.
pub open spec fn token_request(config: EbayConfigView) -> TokenRequestView {
    TokenRequestView {
        url: config.base_url() + token_path(),
        username: config.app_id,
        password: config.cert_id,
        grant_type: grant_type(),
        scope: public_scope(),
    }
}

impl TokenRequest {
    /// Builds the request for the given credentials.
    pub fn new(config: &EbayConfig) -> (request: Self)
        ensures
            request@ == token_request(config@),
    {
        TokenRequest {
            url: config.service_url("/identity/v1/oauth2/token"),
            username: config.app_id.clone(),
            password: config.cert_id.clone(),
            grant_type: String::from_str("client_credentials"),
            scope: String::from_str("https://api.ebay.com/oauth/api_scope"),
        }
    }
}

/// How `reqwest::StatusCode` prints the status with the given number: the
/// number, a space, and the reason phrase registered for it, such as
/// `404 Not Found`.
pub uninterp spec fn status_display(code: u16) -> Seq<char>;

/// Prints a status as `reqwest::StatusCode` does, by its `Display` impl. The
/// result is a function of the number alone; `StatusCode::from_u16` accepts
/// exactly the numbers from 100 to 999.
#[verifier::external_body]
fn render_status(code: u16) -> (text: String)
    requires
        100 <= code <= 999,
    ensures
        text@ == status_display(code),
{
    match reqwest::StatusCode::from_u16(code) {
        Ok(status) => status.to_string(),
        Err(_) => String::new(),
    }
}

/// An HTTP status: a number from 100 to 999.
#[derive(Debug, Clone, Copy)]
pub struct HttpStatus {
    code: u16,
}

impl View for HttpStatus {
    type V = u16;

    closed spec fn view(&self) -> u16 {
        self.code
    }
}

/// Whether `code` can be the number of an HTTP status.
pub open spec fn valid_status(code: u16) -> bool {
    100 <= code <= 999
}

/// Whether a status with number `code` reports success: the numbers from 200 to 299.
pub open spec fn success_status(code: u16) -> bool {
    200 <= code < 300
}

impl HttpStatus {
    #[verifier::type_invariant]
    spec fn in_range(self) -> bool {
        valid_status(self.code)
    }

    /// The status with the given number, if there is one.
    pub fn from_u16(code: u16) -> (status: Option<Self>)
        ensures
            status is Some <==> valid_status(code),
            status matches Some(s) ==> s@ == code,
    {
        if 100 <= code && code <= 999 {
            Some(HttpStatus { code })
        } else {
            None
        }
    }

    /// The number of the status.
    pub fn as_u16(&self) -> (code: u16)
        ensures
            code == self@,
            valid_status(code),
    {
        proof {
            use_type_invariant(self);
        }
        self.code
    }

    /// Whether the status reports success.
    pub fn is_success(&self) -> (yes: bool)
        ensures
            yes == success_status(self@),
    {
        200 <= self.code && self.code < 300
    }

    /// The status as a response line shows it, such as `404 Not Found`.
    pub fn text(&self) -> (text: String)
        ensures
            text@ == status_display(self@),
    {
        proof {
            use_type_invariant(self);
        }
        render_status(self.code)
    }
}

/// What came of one token request.
#[derive(Debug)]
pub enum TokenReply {
    /// No response arrived; the text is the transport's account of the
    /// failure.
    NoResponse(String),
    /// The endpoint answered.
    Answered {
        /// Status of the response.
        status: HttpStatus,
        /// Body of the response, as text.
        body: String,
        /// The body decoded as a token grant, or the decoder's complaint.
        /// It counts only under a success status.
        grant: Result<EbayToken, String>,
    },
}

/// What a [`TokenReply`] holds, as mathematical values.
pub enum TokenReplyView {
    NoResponse(Seq<char>),
    Answered { status: u16, body: Seq<char>, grant: Result<EbayTokenView, Seq<char>> },
}

impl View for TokenReply {
    type V = TokenReplyView;

    open spec fn view(&self) -> TokenReplyView {
        match self {
            TokenReply::NoResponse(why) => TokenReplyView::NoResponse(why@),
            TokenReply::Answered { status, body, grant } => TokenReplyView::Answered {
                status: status@,
                body: body@,
                grant: match grant {
                    Ok(token) => Ok(token@),
                    Err(why) => Err(why@),
                },
            },
        }
    }
}

} // verus!
