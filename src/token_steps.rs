use vstd::prelude::*;
use crate::account::FirefoxAccount;
use crate::error::{FxaError, TransportError, is_auth_rejection, transport_error_spec};
use crate::scopes::{same_scopes, same_scope_set, copy_scopes};
use crate::state::{AccountState, Credentials};
use crate::token::{
    AccessTokenInfo, PendingRefresh, RefreshOutcome, Refreshes, SAFETY_MARGIN_SECS, find_token, has_token_for,
    is_pending_id, is_refreshing, result_equiv, tokens_unique, token_equiv, usable_at,
};

verus! {

/// What the server sends back for a refresh-token grant.
#[derive(Debug, PartialEq, Eq)]
pub struct TokenResponse {
    pub access_token: String,
    /// Lifetime of the token, in seconds.
    pub expires_in: u64,
}

/// A refresh-token grant for the transport to perform; `id` names this refresh.
#[derive(Debug)]
pub struct RefreshRequest {
    pub id: u64,
    pub refresh_token: String,
    pub scopes: Vec<String>,
}

/// The first step of obtaining an access token.
#[derive(Debug)]
pub enum AccessTokenStep {
    /// A cached token that may be served now.
    Cached(AccessTokenInfo),
    /// No usable token: perform this grant, then hand its outcome to `finish_access_token`.
    Refresh(RefreshRequest),
    /// The refresh with this id, for the same scope set, is outstanding: its outcome,
    /// from `refresh_outcome`, is this caller's too.
    Wait(u64),
}

/// The expiry of a token that lives `secs` seconds from `now`, saturating at the clock's end.
pub open spec fn expiry_after(now: u64, secs: u64) -> u64 {
    if now + secs > u64::MAX { u64::MAX } else { (now + secs) as u64 }
}

/// Whether a token that lives `secs` seconds from `now` may be served at `now`.
pub open spec fn lifetime_usable(now: u64, secs: u64) -> bool {
    now + SAFETY_MARGIN_SECS < expiry_after(now, secs)
}

/// Whether the cache holds a token for the scope set of `scopes` that may be served at `now`.
pub open spec fn usable_token_for(cache: Seq<AccessTokenInfo>, scopes: Seq<String>, now: u64) -> bool {
    exists|i: int| 0 <= i < cache.len() && same_scopes(#[trigger] cache[i].scopes@, scopes) && usable_at(cache[i], now)
}

/// The two accounts differ at most in their refreshes and their token cache.
pub open spec fn same_except_tokens(a: FirefoxAccount, b: FirefoxAccount) -> bool {
    &&& a.same_config(b)
    &&& a.state == b.state
    &&& a.devices == b.devices
    &&& a.registration == b.registration
    &&& a.last_command_index == b.last_command_index
    &&& a.migration == b.migration
}

/// The credentials, marked as rejected by the server.
pub open spec fn mark_stale(s: AccountState) -> AccountState {
    match s {
        AccountState::Connected { credentials, flow } => AccountState::Connected {
            credentials: Credentials { stale: true, ..credentials },
            flow,
        },
        _ => s,
    }
}

/// The cache `r` is `cache` with `t` as its token for the scope set of `t.scopes`.
pub open spec fn with_token(cache: Seq<AccessTokenInfo>, t: AccessTokenInfo, r: Seq<AccessTokenInfo>) -> bool {
    &&& forall|i: int| 0 <= i < cache.len() && same_scopes(#[trigger] cache[i].scopes@, t.scopes@) ==> {
        &&& r.len() == cache.len()
        &&& token_equiv(r[i], t)
        &&& forall|j: int| 0 <= j < cache.len() && j != i ==> r[j] == cache[j]
    }
    &&& !has_token_for(cache, t.scopes@) ==> r.drop_last() == cache && r.len() == cache.len() + 1 && token_equiv(r.last(), t)
}

/// The cache `r` is `cache` without its token for the scope set of `scopes`.
pub open spec fn without_token(cache: Seq<AccessTokenInfo>, scopes: Seq<String>, r: Seq<AccessTokenInfo>) -> bool {
    &&& forall|i: int| 0 <= i < cache.len() && same_scopes(#[trigger] cache[i].scopes@, scopes) ==> r == cache.remove(i)
    &&& !has_token_for(cache, scopes) ==> r == cache
}

/// Whether an outcome is kept for the scope set of `scopes`.
pub open spec fn has_outcome_for(outcomes: Seq<RefreshOutcome>, scopes: Seq<String>) -> bool {
    exists|i: int| 0 <= i < outcomes.len() && same_scopes(#[trigger] outcomes[i].scopes@, scopes)
}

/// The outcome `o` describes the refresh `id` of `scopes` that gave `r`.
pub open spec fn outcome_is(o: RefreshOutcome, id: u64, scopes: Seq<String>, r: Result<AccessTokenInfo, FxaError>) -> bool {
    o.id == id && o.scopes@ == scopes && result_equiv(o.result, r)
}

/// `new` is `outcomes` with the outcome of the refresh `id` as the one kept for its scope set.
pub open spec fn with_outcome(
    outcomes: Seq<RefreshOutcome>,
    id: u64,
    scopes: Seq<String>,
    r: Result<AccessTokenInfo, FxaError>,
    new: Seq<RefreshOutcome>,
) -> bool {
    &&& forall|i: int| 0 <= i < outcomes.len() && same_scopes(#[trigger] outcomes[i].scopes@, scopes) ==> {
        &&& new.len() == outcomes.len()
        &&& outcome_is(new[i], id, scopes, r)
        &&& forall|j: int| 0 <= j < outcomes.len() && j != i ==> new[j] == outcomes[j]
    }
    &&& !has_outcome_for(outcomes, scopes) ==> {
        &&& new.len() == outcomes.len() + 1
        &&& new.drop_last() == outcomes
        &&& outcome_is(new.last(), id, scopes, r)
    }
}

/// What `refresh_outcome` gives for the refresh `id` of `scopes`.
pub open spec fn outcome_lookup(
    outcomes: Seq<RefreshOutcome>,
    scopes: Seq<String>,
    id: u64,
    r: Option<Result<AccessTokenInfo, FxaError>>,
) -> bool {
    match r {
        Some(x) => exists|i: int|
            0 <= i < outcomes.len() && same_scopes(#[trigger] outcomes[i].scopes@, scopes) && outcomes[i].id == id
                && result_equiv(x, outcomes[i].result),
        None => forall|i: int|
            0 <= i < outcomes.len() && same_scopes(#[trigger] outcomes[i].scopes@, scopes) ==> outcomes[i].id != id,
    }
}

/// What the first step of obtaining an access token for `scopes` at `now` returns, and
/// what it leaves.
pub open spec fn access_token_step(
    old: FirefoxAccount,
    scopes: Seq<String>,
    now: u64,
    r: Result<AccessTokenStep, FxaError>,
    new: FirefoxAccount,
) -> bool {
    match old.state {
        AccountState::Connected { credentials, .. } => {
            if credentials.stale {
                r == Err::<AccessTokenStep, FxaError>(FxaError::AuthenticationError) && new == old
            } else if usable_token_for(old.access_tokens@, scopes, now) {
                &&& new == old
                &&& r matches Ok(AccessTokenStep::Cached(t))
                &&& exists|i: int| 0 <= i < old.access_tokens.len()
                    && same_scopes(#[trigger] old.access_tokens@[i].scopes@, scopes)
                    && token_equiv(t, old.access_tokens@[i])
                &&& usable_at(t, now)
            } else if is_refreshing(old.refreshing.pending@, scopes) {
                &&& new == old
                &&& r matches Ok(AccessTokenStep::Wait(id))
                &&& exists|i: int| 0 <= i < old.refreshing.pending.len()
                    && same_scopes(#[trigger] old.refreshing.pending@[i].scopes@, scopes)
                    && old.refreshing.pending@[i].id == id
            } else if old.refreshing.next_id == u64::MAX {
                r == Err::<AccessTokenStep, FxaError>(FxaError::Fatal) && new == old
            } else {
                &&& r matches Ok(AccessTokenStep::Refresh(req))
                &&& req.id == old.refreshing.next_id
                &&& req.refresh_token == credentials.refresh_token
                &&& req.scopes@ == scopes
                &&& same_except_tokens(new, old)
                &&& new.access_tokens == old.access_tokens
                &&& new.refreshing.outcomes == old.refreshing.outcomes
                &&& new.refreshing.next_id == old.refreshing.next_id + 1
                &&& new.refreshing.pending@.len() == old.refreshing.pending@.len() + 1
                &&& new.refreshing.pending@.drop_last() == old.refreshing.pending@
                &&& new.refreshing.pending@.last().id == req.id
                &&& new.refreshing.pending@.last().scopes@ == scopes
            }
        },
        _ => r == Err::<AccessTokenStep, FxaError>(FxaError::NotAuthenticated) && new == old,
    }
}

/// What handing the outcome of the refresh `id`, received at `now`, does. A refresh that
/// is not outstanding (superseded by a disconnect or a new sign-in) changes nothing.
pub open spec fn access_token_finish(
    old: FirefoxAccount,
    id: u64,
    now: u64,
    response: Result<TokenResponse, TransportError>,
    r: Result<AccessTokenInfo, FxaError>,
    new: FirefoxAccount,
) -> bool {
    if !old.state.is_connected() {
        r == Err::<AccessTokenInfo, FxaError>(FxaError::NotAuthenticated) && new == old
    } else if !is_pending_id(old.refreshing.pending@, id) {
        r == Err::<AccessTokenInfo, FxaError>(FxaError::Transient) && new == old
    } else {
        forall|i: int| 0 <= i < old.refreshing.pending.len() && (#[trigger] old.refreshing.pending@[i]).id == id ==> {
            let scopes = old.refreshing.pending@[i].scopes@;
            &&& new.same_config(old)
            &&& new.devices == old.devices
            &&& new.registration == old.registration
            &&& new.last_command_index == old.last_command_index
            &&& new.migration == old.migration
            &&& new.refreshing.pending@ == old.refreshing.pending@.remove(i)
            &&& new.refreshing.next_id == old.refreshing.next_id
            &&& with_outcome(old.refreshing.outcomes@, id, scopes, r, new.refreshing.outcomes@)
            &&& match response {
                Ok(resp) => {
                    &&& new.state == old.state
                    &&& if lifetime_usable(now, resp.expires_in) {
                        &&& r matches Ok(t)
                        &&& t.scopes@ == scopes
                        &&& t.token == resp.access_token
                        &&& t.expires_at == expiry_after(now, resp.expires_in)
                        &&& with_token(old.access_tokens@, t, new.access_tokens@)
                    } else {
                        r == Err::<AccessTokenInfo, FxaError>(FxaError::Transient) && new.access_tokens == old.access_tokens
                    }
                },
                Err(e) => {
                    &&& r == Err::<AccessTokenInfo, FxaError>(transport_error_spec(e))
                    &&& is_auth_rejection(e) ==> {
                        &&& new.state == mark_stale(old.state)
                        &&& without_token(old.access_tokens@, scopes, new.access_tokens@)
                    }
                    &&& !is_auth_rejection(e) ==> new.state == old.state && new.access_tokens == old.access_tokens
                },
            }
        }
    }
}

/// The position of the outstanding refresh for the scope set of `scopes`.
fn find_pending_scopes(pending: &Vec<PendingRefresh>, scopes: &Vec<String>) -> (res: Option<usize>)
    ensures
        res matches Some(i) ==> i < pending.len() && same_scopes(pending@[i as int].scopes@, scopes@),
        res is None ==> !is_refreshing(pending@, scopes@),
{
    let mut i: usize = 0;
    while i < pending.len()
        invariant
            0 <= i <= pending.len(),
            forall|j: int| 0 <= j < i ==> !same_scopes(#[trigger] pending@[j].scopes@, scopes@),
        decreases pending.len() - i,
    {
        if same_scope_set(&pending[i].scopes, scopes) {
            return Some(i);
        }
        i = i + 1;
    }
    None
}

/// The position of the outstanding refresh `id`.
fn find_pending_id(pending: &Vec<PendingRefresh>, id: u64) -> (res: Option<usize>)
    ensures
        res matches Some(i) ==> i < pending.len() && pending@[i as int].id == id,
        res is None ==> !is_pending_id(pending@, id),
{
    let mut i: usize = 0;
    while i < pending.len()
        invariant
            0 <= i <= pending.len(),
            forall|j: int| 0 <= j < i ==> (#[trigger] pending@[j]).id != id,
        decreases pending.len() - i,
    {
        if pending[i].id == id {
            return Some(i);
        }
        i = i + 1;
    }
    None
}

/// The position of the outcome kept for the scope set of `scopes`.
fn find_outcome(outcomes: &Vec<RefreshOutcome>, scopes: &Vec<String>) -> (res: Option<usize>)
    ensures
        res matches Some(i) ==> i < outcomes.len() && same_scopes(outcomes@[i as int].scopes@, scopes@),
        res is None ==> !has_outcome_for(outcomes@, scopes@),
{
    let mut i: usize = 0;
    while i < outcomes.len()
        invariant
            0 <= i <= outcomes.len(),
            forall|j: int| 0 <= j < i ==> !same_scopes(#[trigger] outcomes@[j].scopes@, scopes@),
        decreases outcomes.len() - i,
    {
        if same_scope_set(&outcomes[i].scopes, scopes) {
            return Some(i);
        }
        i = i + 1;
    }
    None
}

/// A copy of the result of a refresh.
fn copy_result(r: &Result<AccessTokenInfo, FxaError>) -> (c: Result<AccessTokenInfo, FxaError>)
    ensures
        result_equiv(c, *r),
{
    match r {
        Ok(t) => Ok(t.copy()),
        Err(e) => Err(*e),
    }
}

/// Keeps `o` as the outcome for its scope set, in place of any earlier one.
fn record_outcome(outcomes: &mut Vec<RefreshOutcome>, o: RefreshOutcome)
    requires
        forall|i: int, j: int|
            0 <= i < old(outcomes)@.len() && 0 <= j < old(outcomes)@.len() && i != j
                ==> !same_scopes(#[trigger] old(outcomes)@[i].scopes@, #[trigger] old(outcomes)@[j].scopes@),
    ensures
        forall|i: int, j: int|
            0 <= i < final(outcomes)@.len() && 0 <= j < final(outcomes)@.len() && i != j
                ==> !same_scopes(#[trigger] final(outcomes)@[i].scopes@, #[trigger] final(outcomes)@[j].scopes@),
        with_outcome(old(outcomes)@, o.id, o.scopes@, o.result, final(outcomes)@),
{
    let ghost before = outcomes@;
    let ghost ov = o;
    proof {
        assert(result_equiv(ov.result, ov.result));
    }
    match find_outcome(outcomes, &o.scopes) {
        Some(i) => {
            outcomes.set(i, o);
            proof {
                assert forall|j: int| 0 <= j < before.len() && same_scopes(#[trigger] before[j].scopes@, ov.scopes@)
                    implies j == i by {
                    if j != i {
                        assert(same_scopes(before[j].scopes@, before[i as int].scopes@));
                    }
                }
                assert forall|a: int, b: int| 0 <= a < outcomes@.len() && 0 <= b < outcomes@.len() && a != b
                    implies !same_scopes(#[trigger] outcomes@[a].scopes@, #[trigger] outcomes@[b].scopes@) by {
                    if a == i {
                        assert(!same_scopes(before[i as int].scopes@, before[b].scopes@));
                    } else if b == i {
                        assert(!same_scopes(before[a].scopes@, before[i as int].scopes@));
                    }
                }
            }
        },
        None => {
            outcomes.push(o);
            proof {
                assert(outcomes@.drop_last() =~= before);
                assert forall|a: int, b: int| 0 <= a < outcomes@.len() && 0 <= b < outcomes@.len() && a != b
                    implies !same_scopes(#[trigger] outcomes@[a].scopes@, #[trigger] outcomes@[b].scopes@) by {
                    if a == before.len() {
                        assert(!same_scopes(before[b].scopes@, ov.scopes@));
                    } else if b == before.len() {
                        assert(!same_scopes(before[a].scopes@, ov.scopes@));
                    }
                }
            }
        },
    }
}

/// Caches `t` as the token for its scope set, in place of any earlier one.
fn cache_token(cache: &mut Vec<AccessTokenInfo>, t: AccessTokenInfo)
    requires
        tokens_unique(old(cache)@),
    ensures
        tokens_unique(final(cache)@),
        with_token(old(cache)@, t, final(cache)@),
{
    let ghost before = cache@;
    let ghost tv = t;
    match find_token(cache, &t.scopes) {
        Some(i) => {
            cache.set(i, t);
            proof {
                assert forall|j: int| 0 <= j < before.len() && same_scopes(#[trigger] before[j].scopes@, tv.scopes@)
                    implies j == i by {
                    if j != i {
                        assert(same_scopes(before[j].scopes@, before[i as int].scopes@));
                    }
                }
                assert forall|a: int, b: int| 0 <= a < cache@.len() && 0 <= b < cache@.len() && a != b
                    implies !same_scopes(#[trigger] cache@[a].scopes@, #[trigger] cache@[b].scopes@) by {
                    if a == i {
                        assert(!same_scopes(before[i as int].scopes@, before[b].scopes@));
                    } else if b == i {
                        assert(!same_scopes(before[a].scopes@, before[i as int].scopes@));
                    }
                }
            }
        },
        None => {
            cache.push(t);
            proof {
                assert(cache@.drop_last() =~= before);
                assert forall|a: int, b: int| 0 <= a < cache@.len() && 0 <= b < cache@.len() && a != b
                    implies !same_scopes(#[trigger] cache@[a].scopes@, #[trigger] cache@[b].scopes@) by {
                    if a == before.len() {
                        assert(!same_scopes(before[b].scopes@, tv.scopes@));
                    } else if b == before.len() {
                        assert(!same_scopes(before[a].scopes@, tv.scopes@));
                    }
                }
            }
        },
    }
}

/// Drops the cached token for the scope set of `scopes`.
fn drop_token(cache: &mut Vec<AccessTokenInfo>, scopes: &Vec<String>)
    requires
        tokens_unique(old(cache)@),
    ensures
        tokens_unique(final(cache)@),
        without_token(old(cache)@, scopes@, final(cache)@),
{
    match find_token(cache, scopes) {
        Some(i) => {
            let ghost before = cache@;
            cache.remove(i);
            proof {
                assert forall|j: int| 0 <= j < before.len() && same_scopes(#[trigger] before[j].scopes@, scopes@)
                    implies cache@ == before.remove(j) by {
                    if j != i {
                        assert(same_scopes(before[j].scopes@, before[i as int].scopes@));
                    }
                }
                assert forall|a: int, b: int| 0 <= a < cache@.len() && 0 <= b < cache@.len() && a != b
                    implies !same_scopes(#[trigger] cache@[a].scopes@, #[trigger] cache@[b].scopes@) by {
                    let a0 = if a < i { a } else { a + 1 };
                    let b0 = if b < i { b } else { b + 1 };
                    assert(cache@[a] == before[a0] && cache@[b] == before[b0]);
                }
            }
        },
        None => {},
    }
}

impl FirefoxAccount {
    /// Looks up a usable cached token for the exact scope set of `scopes`. Without one,
    /// asks for a refresh, unless a refresh for that scope set is already outstanding:
    /// then the caller waits for its outcome, so that one refresh serves every caller.
    pub fn begin_access_token(&mut self, scopes: &Vec<String>, now: u64) -> (r: Result<AccessTokenStep, FxaError>)
        requires
            old(self).wf(),
        ensures
            final(self).wf(),
            access_token_step(*old(self), scopes@, now, r, *final(self)),
            r matches Ok(AccessTokenStep::Cached(t)) ==> usable_at(t, now),
    {
        let refresh_token = match &self.state {
            AccountState::Connected { credentials, .. } => {
                if credentials.stale {
                    return Err(FxaError::AuthenticationError);
                }
                credentials.refresh_token.clone()
            },
            _ => {
                return Err(FxaError::NotAuthenticated);
            },
        };
        match find_token(&self.access_tokens, scopes) {
            Some(i) => {
                if self.access_tokens[i].is_usable_at(now) {
                    return Ok(AccessTokenStep::Cached(self.access_tokens[i].copy()));
                }
                proof {
                    let tokens = self.access_tokens@;
                    assert forall|j: int| 0 <= j < tokens.len() && same_scopes(#[trigger] tokens[j].scopes@, scopes@)
                        implies !usable_at(tokens[j], now) by {
                        assert(same_scopes(tokens[j].scopes@, tokens[i as int].scopes@));
                    }
                }
            },
            None => {},
        }
        match find_pending_scopes(&self.refreshing.pending, scopes) {
            Some(i) => {
                return Ok(AccessTokenStep::Wait(self.refreshing.pending[i].id));
            },
            None => {},
        }
        if self.refreshing.next_id == u64::MAX {
            return Err(FxaError::Fatal);
        }
        let id = self.refreshing.next_id;
        let ghost before = self.refreshing.pending@;
        self.refreshing.pending.push(PendingRefresh { id, scopes: copy_scopes(scopes) });
        self.refreshing.next_id = id + 1;
        proof {
            assert(self.refreshing.pending@.drop_last() =~= before);
            assert(self.refreshing.wf());
        }
        Ok(AccessTokenStep::Refresh(RefreshRequest { id, refresh_token, scopes: copy_scopes(scopes) }))
    }

    /// Takes the outcome of the refresh `id` that `begin_access_token` asked for. A new
    /// token that may be served at `now` is cached for its scope set and returned; one
    /// that may not is a transient failure and is not cached. A rejection of the
    /// credentials drops the cached token for that scope set and marks the credentials
    /// stale. The result is kept for the callers that wait on this refresh.
    pub fn finish_access_token(
        &mut self,
        id: u64,
        now: u64,
        response: Result<TokenResponse, TransportError>,
    ) -> (r: Result<AccessTokenInfo, FxaError>)
        requires
            old(self).wf(),
        ensures
            final(self).wf(),
            access_token_finish(*old(self), id, now, response, r, *final(self)),
            r matches Ok(t) ==> usable_at(t, now),
    {
        if !self.state.is_connected_exec() {
            return Err(FxaError::NotAuthenticated);
        }
        let i = match find_pending_id(&self.refreshing.pending, id) {
            Some(i) => i,
            None => {
                return Err(FxaError::Transient);
            },
        };
        let ghost before = self.refreshing.pending@;
        let ghost next = self.refreshing.next_id;
        let p = self.refreshing.pending.remove(i);
        proof {
            assert forall|a: int, b: int| 0 <= a < self.refreshing.pending@.len() && 0 <= b < self.refreshing.pending@.len() && a != b
                implies !same_scopes(#[trigger] self.refreshing.pending@[a].scopes@, #[trigger] self.refreshing.pending@[b].scopes@)
                    && self.refreshing.pending@[a].id != self.refreshing.pending@[b].id by {
                let a0 = if a < i { a } else { a + 1 };
                let b0 = if b < i { b } else { b + 1 };
                assert(self.refreshing.pending@[a] == before[a0] && self.refreshing.pending@[b] == before[b0]);
            }
            assert forall|a: int| 0 <= a < self.refreshing.pending@.len() implies (#[trigger] self.refreshing.pending@[a]).id < next by {
                let a0 = if a < i { a } else { a + 1 };
                assert(self.refreshing.pending@[a] == before[a0]);
            }
            assert forall|j: int| 0 <= j < before.len() && (#[trigger] before[j]).id == id implies j == i by {}
        }
        let scopes = p.scopes;
        let result = match response {
            Ok(resp) => {
                let expires_at: u64 = if resp.expires_in > u64::MAX - now {
                    u64::MAX
                } else {
                    now + resp.expires_in
                };
                let t = AccessTokenInfo { scopes: copy_scopes(&scopes), token: resp.access_token, expires_at };
                if t.is_usable_at(now) {
                    let out = t.copy();
                    cache_token(&mut self.access_tokens, t);
                    Ok(out)
                } else {
                    Err(FxaError::Transient)
                }
            },
            Err(e) => {
                if e == TransportError::InvalidGrant || e == TransportError::InvalidToken {
                    drop_token(&mut self.access_tokens, &scopes);
                    match &mut self.state {
                        AccountState::Connected { credentials, .. } => {
                            credentials.stale = true;
                        },
                        _ => {},
                    }
                }
                Err(FxaError::from_transport(e))
            },
        };
        let kept = copy_result(&result);
        record_outcome(&mut self.refreshing.outcomes, RefreshOutcome { id, scopes, result: kept });
        result
    }

    /// The outcome of the refresh `id` for the scope set of `scopes`, once it finished:
    /// what `finish_access_token` returned for it.
    pub fn refresh_outcome(&self, scopes: &Vec<String>, id: u64) -> (r: Option<Result<AccessTokenInfo, FxaError>>)
        requires
            self.wf(),
        ensures
            outcome_lookup(self.refreshing.outcomes@, scopes@, id, r),
    {
        match find_outcome(&self.refreshing.outcomes, scopes) {
            Some(i) => {
                if self.refreshing.outcomes[i].id == id {
                    Some(copy_result(&self.refreshing.outcomes[i].result))
                } else {
                    proof {
                        let o = self.refreshing.outcomes@;
                        assert forall|j: int| 0 <= j < o.len() && same_scopes(#[trigger] o[j].scopes@, scopes@)
                            implies o[j].id != id by {
                            if j != i {
                                assert(same_scopes(o[j].scopes@, o[i as int].scopes@));
                            }
                        }
                    }
                    None
                }
            },
            None => None,
        }
    }

    /// Whether the refresh `id` is still outstanding.
    pub fn is_refresh_outstanding(&self, id: u64) -> (r: bool)
        ensures
            r == is_pending_id(self.refreshing.pending@, id),
    {
        match find_pending_id(&self.refreshing.pending, id) {
            Some(_) => true,
            None => false,
        }
    }
}

} // verus!
