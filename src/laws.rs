use vstd::prelude::*;
use crate::account::{FirefoxAccount, AccountSnapshot, restores};
use crate::auth::{TokenGrant, begun, completed};
use crate::error::{FxaError, TransportError, is_auth_rejection};
use crate::scopes::same_scopes;
use crate::state::AccountState;
use crate::token::{AccessTokenInfo, has_token_for, is_pending_id, is_refreshing, result_equiv, token_equiv};
use crate::token_steps::{
    AccessTokenStep, TokenResponse, access_token_finish, access_token_step, has_outcome_for, lifetime_usable, outcome_is,
    outcome_lookup, usable_token_for,
};
use crate::token::usable_at;

verus! {

/// Once a flow has begun with the nonce `nonce`, completing a flow with any other nonce
/// fails with `FlowMismatch` and leaves the account as it was.
pub proof fn lemma_wrong_nonce_rejected(
    a0: FirefoxAccount,
    a1: FirefoxAccount,
    scopes: Seq<String>,
    nonce: Seq<char>,
    verifier: Seq<char>,
    challenge: Seq<char>,
    now: u64,
    other: Seq<char>,
    exchange: Result<TokenGrant, TransportError>,
    r: Result<(), FxaError>,
    a2: FirefoxAccount,
)
    requires
        begun(a0, scopes, nonce, verifier, challenge, now, a1),
        other != nonce,
        completed(a1, other, exchange, r, a2),
    ensures
        r == Err::<(), FxaError>(FxaError::FlowMismatch),
        a2 == a1,
{
}

/// While no token is cached for a scope set and no refresh for it is outstanding, two
/// requests for it give one refresh: the second waits on that same refresh.
pub proof fn lemma_single_flight(
    a0: FirefoxAccount,
    scopes: Seq<String>,
    now1: u64,
    r1: Result<AccessTokenStep, FxaError>,
    a1: FirefoxAccount,
    now2: u64,
    r2: Result<AccessTokenStep, FxaError>,
    a2: FirefoxAccount,
)
    requires
        a0.wf(),
        a0.state matches AccountState::Connected { credentials, .. } && !credentials.stale,
        !has_token_for(a0.access_tokens@, scopes),
        !is_refreshing(a0.refreshing.pending@, scopes),
        a0.refreshing.next_id < u64::MAX,
        access_token_step(a0, scopes, now1, r1, a1),
        access_token_step(a1, scopes, now2, r2, a2),
    ensures
        r1 matches Ok(AccessTokenStep::Refresh(req)) && r2 == Ok::<AccessTokenStep, FxaError>(AccessTokenStep::Wait(req.id)),
        a2 == a1,
{
    assert(!usable_token_for(a0.access_tokens@, scopes, now1));
    assert(!usable_token_for(a1.access_tokens@, scopes, now2));
    let last = a1.refreshing.pending@.len() - 1;
    assert(same_scopes(a1.refreshing.pending@[last].scopes@, scopes));
    assert(is_refreshing(a1.refreshing.pending@, scopes));
    let req = r1->Ok_0->Refresh_0;
    if let Ok(AccessTokenStep::Wait(w)) = r2 {
        let i = choose|i: int| 0 <= i < a1.refreshing.pending.len()
            && same_scopes(#[trigger] a1.refreshing.pending@[i].scopes@, scopes)
            && a1.refreshing.pending@[i].id == w;
        if i != last {
            assert(a1.refreshing.pending@[i] == a1.refreshing.pending@.drop_last()[i]);
            assert(a1.refreshing.pending@[i] == a0.refreshing.pending@[i]);
        }
        assert(w == req.id);
    }
}

/// A caller that waited on the refresh `id` for `scopes` gets, once it finished, exactly
/// what `finish_access_token` returned for it.
pub proof fn lemma_waiter_reuses_result(
    a0: FirefoxAccount,
    scopes: Seq<String>,
    id: u64,
    now: u64,
    response: Result<TokenResponse, TransportError>,
    r: Result<AccessTokenInfo, FxaError>,
    a1: FirefoxAccount,
    w: Option<Result<AccessTokenInfo, FxaError>>,
)
    requires
        a0.wf(),
        a1.wf(),
        a0.state.is_connected(),
        exists|i: int| 0 <= i < a0.refreshing.pending.len() && (#[trigger] a0.refreshing.pending@[i]).id == id
            && same_scopes(a0.refreshing.pending@[i].scopes@, scopes),
        access_token_finish(a0, id, now, response, r, a1),
        outcome_lookup(a1.refreshing.outcomes@, scopes, id, w),
    ensures
        w matches Some(x) && result_equiv(x, r),
{
    let i = choose|i: int| 0 <= i < a0.refreshing.pending.len() && (#[trigger] a0.refreshing.pending@[i]).id == id
        && same_scopes(a0.refreshing.pending@[i].scopes@, scopes);
    let ps = a0.refreshing.pending@[i].scopes@;
    let old_o = a0.refreshing.outcomes@;
    let new_o = a1.refreshing.outcomes@;
    let k: int = if has_outcome_for(old_o, ps) {
        choose|k: int| 0 <= k < old_o.len() && same_scopes(#[trigger] old_o[k].scopes@, ps)
    } else {
        new_o.len() - 1
    };
    assert(outcome_is(new_o[k], id, ps, r));
    assert(same_scopes(new_o[k].scopes@, scopes));
    match w {
        Some(x) => {
            let j = choose|j: int| 0 <= j < new_o.len() && same_scopes(#[trigger] new_o[j].scopes@, scopes)
                && new_o[j].id == id && result_equiv(x, new_o[j].result);
            if j != k {
                assert(same_scopes(new_o[j].scopes@, new_o[k].scopes@));
            }
        },
        None => {
            assert(new_o[k].id != id);
        },
    }
}

/// A connected account whose cached token for `scopes` may no longer be served refreshes
/// it with its refresh token, and a response that lives past the margin gives a token
/// that may be served.
pub proof fn lemma_expired_token_refreshed(
    a0: FirefoxAccount,
    scopes: Seq<String>,
    now: u64,
    r1: Result<AccessTokenStep, FxaError>,
    a1: FirefoxAccount,
    now2: u64,
    resp: TokenResponse,
    r2: Result<AccessTokenInfo, FxaError>,
    a2: FirefoxAccount,
)
    requires
        a0.wf(),
        a0.state matches AccountState::Connected { credentials, .. } && !credentials.stale,
        has_token_for(a0.access_tokens@, scopes),
        !usable_token_for(a0.access_tokens@, scopes, now),
        !is_refreshing(a0.refreshing.pending@, scopes),
        a0.refreshing.next_id < u64::MAX,
        access_token_step(a0, scopes, now, r1, a1),
        access_token_finish(a1, a0.refreshing.next_id, now2, Ok::<TokenResponse, TransportError>(resp), r2, a2),
        lifetime_usable(now2, resp.expires_in),
    ensures
        r1 matches Ok(AccessTokenStep::Refresh(req))
            && req.refresh_token == a0.state->Connected_credentials.refresh_token && req.scopes@ == scopes,
        r2 matches Ok(t) && t.token == resp.access_token && t.scopes@ == scopes && usable_at(t, now2),
        a2.access_tokens@.len() == a0.access_tokens@.len(),
{
    let last = a1.refreshing.pending@.len() - 1;
    assert(a1.refreshing.pending@[last].id == a0.refreshing.next_id);
    assert(is_pending_id(a1.refreshing.pending@, a0.refreshing.next_id));
    assert forall|i: int| 0 <= i < a1.refreshing.pending.len() && (#[trigger] a1.refreshing.pending@[i]).id == a0.refreshing.next_id
        implies i == last by {
        if i != last {
            assert(a1.refreshing.pending@[i] == a0.refreshing.pending@[i]);
        }
    }
    let t = r2->Ok_0;
    let j = choose|j: int| 0 <= j < a0.access_tokens.len() && same_scopes(#[trigger] a0.access_tokens@[j].scopes@, scopes);
    assert(same_scopes(a1.access_tokens@[j].scopes@, t.scopes@));
}

/// Once the server has rejected the credentials during a refresh, every later request
/// for an access token fails with `AuthenticationError`, whatever the scopes.
pub proof fn lemma_rejection_is_sticky(
    a0: FirefoxAccount,
    id: u64,
    now: u64,
    e: TransportError,
    r: Result<AccessTokenInfo, FxaError>,
    a1: FirefoxAccount,
    scopes2: Seq<String>,
    now2: u64,
    r2: Result<AccessTokenStep, FxaError>,
    a2: FirefoxAccount,
)
    requires
        a0.state.is_connected(),
        is_pending_id(a0.refreshing.pending@, id),
        is_auth_rejection(e),
        access_token_finish(a0, id, now, Err::<TokenResponse, TransportError>(e), r, a1),
        access_token_step(a1, scopes2, now2, r2, a2),
    ensures
        r == Err::<AccessTokenInfo, FxaError>(FxaError::AuthenticationError),
        r2 == Err::<AccessTokenStep, FxaError>(FxaError::AuthenticationError),
        a2 == a1,
{
    let i = choose|i: int| 0 <= i < a0.refreshing.pending.len() && (#[trigger] a0.refreshing.pending@[i]).id == id;
}

/// Restoring the snapshot of an account gives an account equivalent to it.
pub proof fn lemma_snapshot_round_trip(a: FirefoxAccount, s: AccountSnapshot, r: Result<FirefoxAccount, FxaError>)
    requires
        a.wf(),
        a.snapshot_of(s),
        restores(s, r),
    ensures
        r matches Ok(b) && b.equivalent(a),
{
    assert forall|i: int, j: int|
        0 <= i < s.access_tokens@.len() && 0 <= j < s.access_tokens@.len() && i != j
            implies !same_scopes(#[trigger] s.access_tokens@[i].scopes@, #[trigger] s.access_tokens@[j].scopes@) by {
        assert(token_equiv(s.access_tokens@[i], a.access_tokens@[i]));
        assert(token_equiv(s.access_tokens@[j], a.access_tokens@[j]));
    }
}

} // verus!
