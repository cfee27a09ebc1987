//! The OAuth2 client-credentials token cache.
//!
//! [`EbayAuth`] owns the credentials and at most one cached token. Time is a
//! reading of a monotonic clock in whole nanoseconds since the clock's
//! origin, handed in by the caller. A caller that wants a token asks
//! [`EbayAuth::get_access_token`], which either hands out the cached token
//! or names the request to send; the outcome of that request goes to
//! [`EbayAuth::refresh_token`], which replaces the cached token as a whole
//! or leaves the cache as it was.
//!
//! The cache does not coalesce refreshes: callers that each find the token
//! due will each be told to send a request, and the last reply taken in is
//! the one that stays.

use vstd::prelude::*;
use vstd::string::*;
use crate::config::{opt_text, EbayConfig, EbayConfigView};
use crate::ebay::exchange::{
    status_display, success_status, token_request, TokenReply, TokenReplyView, TokenRequest,
    TokenRequestView,
};
use crate::error::{HermesError, HermesResult};

verus! {

/// Seconds by which the cache understates the lifetime of every token, so
/// that no call starts with a token that runs out while the call is under
/// way.
pub const SAFETY_MARGIN_SECS: u64 = 60;

/// Nanoseconds in a second.
pub const NANOS_PER_SEC: u64 = 1_000_000_000;

/// The part of a granted lifetime, in seconds, during which the cache hands
/// the token out: the lifetime less the safety margin, and never below zero.
pub open spec fn usable_lifetime(expires_in: nat) -> nat {
    if expires_in > SAFETY_MARGIN_SECS {
        (expires_in - SAFETY_MARGIN_SECS) as nat
    } else {
        0
    }
}

/// The clock reading from which on a token granted at `now` for
/// `expires_in` seconds is no longer handed out.
pub open spec fn deadline(now: nat, expires_in: nat) -> nat {
    (now + usable_lifetime(expires_in) * NANOS_PER_SEC) as nat
}

/// The value of the `Authorization` header that carries `token`.
pub open spec fn bearer(token: Seq<char>) -> Seq<char> {
    "Bearer "@ + token
}

/// eBay OAuth token response.
#[derive(Debug, Clone)]
pub struct EbayToken {
    /// The opaque bearer value.
    pub access_token: String,
    /// The kind of token, `Bearer` in practice.
    pub token_type: String,
    /// Lifetime in seconds, counted from the grant.
    pub expires_in: u64,
    /// The scopes granted, where the server names them.
    pub scope: Option<String>,
}

/// What an [`EbayToken`] holds, as mathematical values.
pub struct EbayTokenView {
    pub access_token: Seq<char>,
    pub token_type: Seq<char>,
    pub expires_in: u64,
    pub scope: Option<Seq<char>>,
}

impl View for EbayToken {
    type V = EbayTokenView;

    open spec fn view(&self) -> EbayTokenView {
        EbayTokenView {
            access_token: self.access_token@,
            token_type: self.token_type@,
            expires_in: self.expires_in,
            scope: opt_text(self.scope),
        }
    }
}

/// A granted token together with the clock reading at which the cache stops
/// handing it out.
#[derive(Debug)]
pub struct CachedToken {
    token: EbayToken,
    expires_at: u128,
}

/// What a [`CachedToken`] holds, as mathematical values.
pub struct CachedTokenView {
    pub token: EbayTokenView,
    pub expires_at: nat,
}

impl CachedTokenView {
    /// The clock reading at which the token was taken in, as the deadline
    /// implies it.
    pub open spec fn issued_at(self) -> int {
        self.expires_at - usable_lifetime(self.token.expires_in as nat) * NANOS_PER_SEC
    }

    /// The deadline lies the usable lifetime, and no more, after a reading
    /// that the clock can give: it is never the server's own deadline.
    pub open spec fn wf(self) -> bool {
        0 <= self.issued_at() <= u64::MAX
    }

    /// Whether the token may be handed out at `now`.
    pub open spec fn fresh(self, now: nat) -> bool {
        now < self.expires_at
    }
}

impl View for CachedToken {
    type V = CachedTokenView;

    closed spec fn view(&self) -> CachedTokenView {
        CachedTokenView { token: self.token@, expires_at: self.expires_at as nat }
    }
}

impl CachedToken {
    #[verifier::type_invariant]
    spec fn margin_kept(self) -> bool {
        self@.wf()
    }

    /// The token as it was granted.
    pub fn token(&self) -> (token: &EbayToken)
        ensures
            token@ == self@.token,
            self@.wf(),
    {
        proof {
            use_type_invariant(self);
        }
        &self.token
    }

    /// The clock reading, in nanoseconds, from which on the token is due
    /// for refresh.
    pub fn expires_at(&self) -> (at: u128)
        ensures
            at == self@.expires_at,
            self@.wf(),
    {
        proof {
            use_type_invariant(self);
        }
        self.expires_at
    }

    /// Whether the token may be handed out at `now`.
    pub fn is_fresh(&self, now: u64) -> (yes: bool)
        ensures
            yes == self@.fresh(now as nat),
    {
        (now as u128) < self.expires_at
    }
}

/// What a caller that wants a token has to do.
#[derive(Debug)]
pub enum TokenAction {
    /// Use this value; nothing is to be sent.
    Use(String),
    /// Send this one request and hand the cache its outcome.
    Refresh(TokenRequest),
}

/// What a [`TokenAction`] holds, as mathematical values.
pub enum TokenActionView {
    Use(Seq<char>),
    Refresh(TokenRequestView),
}

impl View for TokenAction {
    type V = TokenActionView;

    open spec fn view(&self) -> TokenActionView {
        match self {
            TokenAction::Use(value) => TokenActionView::Use(value@),
            TokenAction::Refresh(request) => TokenActionView::Refresh(request@),
        }
    }
}

/// eBay authentication handler: the credentials and the token cached for
/// them, if any.
pub struct EbayAuth {
    config: EbayConfig,
    cached: Option<CachedToken>,
}

/// What an [`EbayAuth`] holds, as mathematical values.
pub struct EbayAuthView {
    pub config: EbayConfigView,
    pub cached: Option<CachedTokenView>,
}

impl EbayAuthView {
    /// Whether a token is cached that may be handed out at `now`.
    pub open spec fn fresh(self, now: nat) -> bool {
        self.cached matches Some(cached) && cached.fresh(now)
    }

    /// Every cached deadline keeps the safety margin.
    pub open spec fn wf(self) -> bool {
        self.cached matches Some(cached) ==> cached.wf()
    }
}

impl View for EbayAuth {
    type V = EbayAuthView;

    closed spec fn view(&self) -> EbayAuthView {
        EbayAuthView {
            config: self.config@,
            cached: match self.cached {
                Some(cached) => Some(cached@),
                None => None,
            },
        }
    }
}

/// What a caller at `now` is told: the cached token while it is fresh, the
/// request for a new one otherwise.
pub open spec fn next_action(auth: EbayAuthView, now: nat) -> TokenActionView {
    match auth.cached {
        Some(cached) if cached.fresh(now) => TokenActionView::Use(cached.token.access_token),
        _ => TokenActionView::Refresh(token_request(auth.config)),
    }
}

/// As [`next_action`], with the token wrapped into its header value.
pub open spec fn next_header_action(auth: EbayAuthView, now: nat) -> TokenActionView {
    match auth.cached {
        Some(cached) if cached.fresh(now) => TokenActionView::Use(
            bearer(cached.token.access_token),
        ),
        _ => TokenActionView::Refresh(token_request(auth.config)),
    }
}

/// The verdict on a reply: the token it grants, or why it grants none.
pub enum RefreshOutcome {
    Granted(EbayTokenView),
    Refused(Seq<char>),
}

/// A reply grants a token exactly when it carries a success status and its
/// body decodes. Every other reply is refused, with the text that tells the
/// cause: the transport's words, the status and the body, or the decoder's
/// words.
pub open spec fn refresh_outcome(reply: TokenReplyView) -> RefreshOutcome {
    match reply {
        TokenReplyView::NoResponse(why) => RefreshOutcome::Refused(why),
        TokenReplyView::Answered { status, body, grant } => if !success_status(status) {
            RefreshOutcome::Refused(
                "Failed to get token: "@ + status_display(status) + " - "@ + body,
            )
        } else {
            match grant {
                Ok(token) => RefreshOutcome::Granted(token),
                Err(why) => RefreshOutcome::Refused("Failed to parse token response: "@ + why),
            }
        },
    }
}

/// The cache after it took in `reply` at `now`: a granted token replaces
/// whatever was cached, a refused reply changes nothing.
pub open spec fn state_after(auth: EbayAuthView, reply: TokenReplyView, now: nat) -> EbayAuthView {
    match refresh_outcome(reply) {
        RefreshOutcome::Granted(token) => EbayAuthView {
            cached: Some(
                CachedTokenView { token, expires_at: deadline(now, token.expires_in as nat) },
            ),
            ..auth
        },
        RefreshOutcome::Refused(_) => auth,
    }
}

/// Whether `result` is what a refresh with the given outcome returns, the
/// granted token being passed through `wrap` first.
pub open spec fn returns_outcome(
    result: HermesResult<String>,
    outcome: RefreshOutcome,
    wrap: spec_fn(Seq<char>) -> Seq<char>,
) -> bool {
    match outcome {
        RefreshOutcome::Granted(token) => result matches Ok(value) && value@ == wrap(
            token.access_token,
        ),
        RefreshOutcome::Refused(why) => result matches Err(HermesError::Authentication(detail))
            && detail@ == why,
    }
}

impl EbayAuth {
    #[verifier::type_invariant]
    spec fn margins_kept(self) -> bool {
        self@.wf()
    }

    /// Create a new eBay authentication handler, with nothing cached.
    pub fn new(config: EbayConfig) -> (auth: HermesResult<Self>)
        ensures
            auth matches Ok(a) && a@ == (EbayAuthView { config: config@, cached: None }),
    {
        Ok(EbayAuth { config, cached: None })
    }

    /// The credentials the handler was made with.
    pub fn config(&self) -> (config: &EbayConfig)
        ensures
            config@ == self@.config,
    {
        &self.config
    }

    /// The cached token, whether fresh or not.
    pub fn cached(&self) -> (cached: Option<&CachedToken>)
        ensures
            self@.wf(),
            match cached {
                Some(c) => self@.cached == Some(c@),
                None => self@.cached is None,
            },
    {
        proof {
            use_type_invariant(self);
        }
        match &self.cached {
            Some(cached) => Some(cached),
            None => None,
        }
    }

    /// Get a valid access token, or the request that obtains one: the
    /// cached token while `now` lies before its deadline, else the request.
    pub fn get_access_token(&self, now: u64) -> (action: TokenAction)
        ensures
            action@ == next_action(self@, now as nat),
    {
        match &self.cached {
            Some(cached) => {
                if cached.is_fresh(now) {
                    return TokenAction::Use(cached.token.access_token.clone());
                }
            },
            None => {},
        }
        TokenAction::Refresh(TokenRequest::new(&self.config))
    }

    /// Get the authorization header for API requests, or the request that
    /// obtains the token for it.
    pub fn get_auth_header(&self, now: u64) -> (action: TokenAction)
        ensures
            action@ == next_header_action(self@, now as nat),
    {
        match self.get_access_token(now) {
            TokenAction::Use(token) => TokenAction::Use(bearer_header(token.as_str())),
            TokenAction::Refresh(request) => TokenAction::Refresh(request),
        }
    }

    /// Takes in the outcome of the request that `get_access_token` asked
    /// for, `now` being the clock reading on its arrival. A granted token is
    /// cached until the usable part of its lifetime is over, and returned; a
    /// refused reply leaves the cache untouched and comes back as an
    /// `Authentication` error.
    pub fn refresh_token(&mut self, reply: TokenReply, now: u64) -> (result: HermesResult<String>)
        ensures
            final(self)@ == state_after(old(self)@, reply@, now as nat),
            returns_outcome(result, refresh_outcome(reply@), |token: Seq<char>| token),
            final(self)@.wf(),
    {
        match judge(reply) {
            Ok(token) => {
                let access_token = token.access_token.clone();
                self.store(token, now);
                Ok(access_token)
            },
            Err(detail) => {
                proof {
                    use_type_invariant(&*self);
                }
                Err(HermesError::Authentication(detail))
            },
        }
    }

    /// As [`EbayAuth::refresh_token`], returning the authorization header
    /// in place of the bare token.
    pub fn refresh_auth_header(&mut self, reply: TokenReply, now: u64) -> (result: HermesResult<
        String,
    >)
        ensures
            final(self)@ == state_after(old(self)@, reply@, now as nat),
            returns_outcome(result, refresh_outcome(reply@), |token: Seq<char>| bearer(token)),
            final(self)@.wf(),
    {
        match self.refresh_token(reply, now) {
            Ok(token) => Ok(bearer_header(token.as_str())),
            Err(err) => Err(err),
        }
    }

    /// Replaces the cached token by `token`, granted at `now`.
    fn store(&mut self, token: EbayToken, now: u64)
        ensures
            final(self)@ == (EbayAuthView {
                cached: Some(
                    CachedTokenView {
                        token: token@,
                        expires_at: deadline(now as nat, token.expires_in as nat),
                    },
                ),
                ..old(self)@
            }),
            final(self)@.wf(),
    {
        let lifetime: u64 = token.expires_in.saturating_sub(SAFETY_MARGIN_SECS);
        let expires_at: u128 = now as u128 + (lifetime as u128) * (NANOS_PER_SEC as u128);
        self.cached = Some(CachedToken { token, expires_at });
    }
}

/// Decides what a reply amounts to.
pub fn judge(reply: TokenReply) -> (verdict: Result<EbayToken, String>)
    ensures
        match refresh_outcome(reply@) {
            RefreshOutcome::Granted(token) => verdict matches Ok(t) && t@ == token,
            RefreshOutcome::Refused(why) => verdict matches Err(detail) && detail@ == why,
        },
{
    match reply {
        TokenReply::NoResponse(why) => Err(why),
        TokenReply::Answered { status, body, grant } => {
            if !status.is_success() {
                let mut detail = String::from_str("Failed to get token: ");
                let shown = status.text();
                detail.append(shown.as_str());
                detail.append(" - ");
                detail.append(body.as_str());
                return Err(detail);
            }
            match grant {
                Ok(token) => Ok(token),
                Err(why) => {
                    let mut detail = String::from_str("Failed to parse token response: ");
                    detail.append(why.as_str());
                    Err(detail)
                },
            }
        },
    }
}

/// The value of the `Authorization` header that carries `token`.
pub fn bearer_header(token: &str) -> (header: String)
    ensures
        header@ == bearer(token@),
{
    let mut header = String::from_str("Bearer ");
    header.append(token);
    header
}

} // verus!
