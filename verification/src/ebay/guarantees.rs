//! What the token cache guarantees, stated over its model and proved.

use vstd::prelude::*;
use crate::ebay::auth::{
    bearer, deadline, next_action, next_header_action, refresh_outcome, returns_outcome,
    state_after, CachedTokenView, EbayAuthView, EbayTokenView, RefreshOutcome,
    TokenActionView, NANOS_PER_SEC, SAFETY_MARGIN_SECS,
};
use crate::ebay::exchange::{success_status, token_request, TokenReplyView};
use crate::error::HermesResult;

verus! {

/// While a cached token is fresh, a caller is handed that token and is not
/// told to send anything.
pub proof fn fresh_token_is_handed_out(auth: EbayAuthView, now: nat)
    requires
        auth.fresh(now),
    ensures
        next_action(auth, now) == TokenActionView::Use(auth.cached->0.token.access_token),
        !(next_action(auth, now) is Refresh),
{
}

/// With nothing cached, or once the clock has reached the cached token's
/// deadline, a caller is told to send one request, built from the
/// credentials alone; no stale token is handed out.
pub proof fn due_token_calls_for_one_request(auth: EbayAuthView, now: nat)
    requires
        !auth.fresh(now),
    ensures
        next_action(auth, now) == TokenActionView::Refresh(token_request(auth.config)),
{
}

/// A request is called for exactly when no fresh token is cached.
pub proof fn request_only_when_due(auth: EbayAuthView, now: nat)
    ensures
        next_action(auth, now) is Refresh <==> !auth.fresh(now),
        next_action(auth, now) is Use <==> auth.fresh(now),
{
}

/// The deadline of a token lies the granted lifetime less sixty seconds
/// after the grant; a lifetime of sixty seconds or less puts it at the grant
/// itself. It is never before the grant, and for any lifetime above zero it
/// is before the deadline the server named.
pub proof fn deadline_keeps_margin(now: nat, expires_in: nat)
    ensures
        expires_in >= SAFETY_MARGIN_SECS ==> deadline(now, expires_in) == now + (expires_in
            - SAFETY_MARGIN_SECS) * NANOS_PER_SEC,
        expires_in <= SAFETY_MARGIN_SECS ==> deadline(now, expires_in) == now,
        deadline(now, expires_in) >= now,
        expires_in > 0 ==> deadline(now, expires_in) < now + expires_in * NANOS_PER_SEC,
{
}

/// A granted token is cached as a whole, under the deadline that the safety
/// margin gives it, and whatever was cached before is gone.
pub proof fn grant_replaces_cached_token(
    auth: EbayAuthView,
    reply: TokenReplyView,
    token: EbayTokenView,
    now: nat,
)
    requires
        refresh_outcome(reply) == RefreshOutcome::Granted(token),
    ensures
        state_after(auth, reply, now).cached == Some(
            CachedTokenView { token, expires_at: deadline(now, token.expires_in as nat) },
        ),
        state_after(auth, reply, now).config == auth.config,
{
}

/// A caller whose request is granted a token is returned exactly the token
/// that the cache holds from then on.
pub proof fn granted_token_is_returned_and_cached(
    auth: EbayAuthView,
    reply: TokenReplyView,
    now: nat,
    result: HermesResult<String>,
)
    requires
        refresh_outcome(reply) is Granted,
        returns_outcome(result, refresh_outcome(reply), |token: Seq<char>| token),
    ensures
        result matches Ok(token) && state_after(auth, reply, now).cached matches Some(cached)
            && cached.token.access_token == token@,
{
}

/// A reply that grants no token leaves credentials, token and deadline
/// exactly as they were.
pub proof fn refused_reply_changes_nothing(auth: EbayAuthView, reply: TokenReplyView, now: nat)
    requires
        refresh_outcome(reply) is Refused,
    ensures
        state_after(auth, reply, now) == auth,
{
}

/// A response whose status is outside 200 to 299 grants nothing, whatever its
/// body holds: the cache stays as it was and the caller gets an
/// `Authentication` error, not a token.
pub proof fn failure_status_is_refused(
    auth: EbayAuthView,
    status: u16,
    body: Seq<char>,
    grant: Result<EbayTokenView, Seq<char>>,
    now: nat,
    result: HermesResult<String>,
)
    requires
        !success_status(status),
        returns_outcome(
            result,
            refresh_outcome(TokenReplyView::Answered { status, body, grant }),
            |token: Seq<char>| token,
        ),
    ensures
        state_after(auth, TokenReplyView::Answered { status, body, grant }, now) == auth,
        result matches Err(err) && err is Authentication,
{
}

/// A response with a success status whose body does not decode grants
/// nothing: the cache stays as it was and the caller gets an
/// `Authentication` error that carries the decoder's words.
pub proof fn undecodable_body_is_refused(
    auth: EbayAuthView,
    status: u16,
    body: Seq<char>,
    why: Seq<char>,
    now: nat,
    result: HermesResult<String>,
)
    requires
        success_status(status),
        returns_outcome(
            result,
            refresh_outcome(TokenReplyView::Answered { status, body, grant: Err(why) }),
            |token: Seq<char>| token,
        ),
    ensures
        state_after(auth, TokenReplyView::Answered { status, body, grant: Err(why) }, now)
            == auth,
        result matches Err(err) && err is Authentication,
        result->Err_0->Authentication_0@ == "Failed to parse token response: "@ + why,
{
}

/// A request that got no response grants nothing: the cache stays as it was
/// and the caller gets the transport's words as an `Authentication` error.
pub proof fn lost_request_is_refused(
    auth: EbayAuthView,
    why: Seq<char>,
    now: nat,
    result: HermesResult<String>,
)
    requires
        returns_outcome(
            result,
            refresh_outcome(TokenReplyView::NoResponse(why)),
            |token: Seq<char>| token,
        ),
    ensures
        state_after(auth, TokenReplyView::NoResponse(why), now) == auth,
        result matches Err(err) && err is Authentication,
        result->Err_0->Authentication_0@ == why,
{
}

/// Any number of callers that ask while the cached token is fresh are all
/// handed the same token, and none of them is told to send anything.
pub proof fn readers_of_a_fresh_token_agree(auth: EbayAuthView, times: Seq<nat>)
    requires
        forall|i: int| 0 <= i < times.len() ==> auth.fresh(#[trigger] times[i]),
    ensures
        forall|i: int|
            0 <= i < times.len() ==> next_action(auth, #[trigger] times[i])
                == TokenActionView::Use(auth.cached->0.token.access_token),
{
}

/// After a grant at `now`, every caller that asks from `now` on and before
/// the deadline is handed the granted token.
pub proof fn granted_token_serves_until_deadline(
    auth: EbayAuthView,
    reply: TokenReplyView,
    token: EbayTokenView,
    now: nat,
    later: nat,
)
    requires
        refresh_outcome(reply) == RefreshOutcome::Granted(token),
        later < deadline(now, token.expires_in as nat),
    ensures
        next_action(state_after(auth, reply, now), later) == TokenActionView::Use(
            token.access_token,
        ),
{
}

/// The header a caller is handed is `Bearer`, a space, and exactly the
/// token the caller would be handed at that reading; where a request is
/// called for, it is the same request.
pub proof fn header_carries_the_token(auth: EbayAuthView, now: nat)
    ensures
        match next_action(auth, now) {
            TokenActionView::Use(token) => next_header_action(auth, now) == TokenActionView::Use(
                bearer(token),
            ),
            TokenActionView::Refresh(request) => next_header_action(auth, now)
                == TokenActionView::Refresh(request),
        },
{
}

/// Taking a reply in for a header and taking it in for a token succeed and
/// fail together; the header is the token behind `Bearer` and a space, and
/// the error is the same.
pub proof fn refreshed_header_carries_the_token(
    outcome: RefreshOutcome,
    token: HermesResult<String>,
    header: HermesResult<String>,
)
    requires
        returns_outcome(token, outcome, |t: Seq<char>| t),
        returns_outcome(header, outcome, |t: Seq<char>| bearer(t)),
    ensures
        token is Ok <==> header is Ok,
        token matches Ok(t) ==> header->Ok_0@ == "Bearer "@ + t@,
        token matches Err(e) ==> e is Authentication && header->Err_0 is Authentication
            && header->Err_0->Authentication_0@ == e->Authentication_0@,
{
}

/// Taking a reply in keeps the safety margin of whatever is cached.
pub proof fn refresh_keeps_margin(auth: EbayAuthView, reply: TokenReplyView, now: nat)
    requires
        auth.wf(),
        now <= u64::MAX,
    ensures
        state_after(auth, reply, now).wf(),
{
}

} // verus!
