use vstd::prelude::*;
use crate::error::FxaError;
use crate::scopes::{same_scopes, same_scope_set, copy_scopes};

verus! {

/// Seconds before its reported expiry at which an access token is due for renewal.
pub const SAFETY_MARGIN_SECS: u64 = 60;

/// An OAuth access token for an exact scope set.
#[derive(Debug)]
pub struct AccessTokenInfo {
    pub scopes: Vec<String>,
    pub token: String,
    /// Expiry, in seconds of the caller's clock.
    pub expires_at: u64,
}

pub open spec fn token_equiv(a: AccessTokenInfo, b: AccessTokenInfo) -> bool {
    a.scopes@ == b.scopes@ && a.token == b.token && a.expires_at == b.expires_at
}

pub open spec fn tokens_equiv(a: Seq<AccessTokenInfo>, b: Seq<AccessTokenInfo>) -> bool {
    a.len() == b.len() && forall|i: int| 0 <= i < a.len() ==> token_equiv(#[trigger] a[i], b[i])
}

/// A token is served only while `now < expires_at - SAFETY_MARGIN_SECS`.
pub open spec fn usable_at(t: AccessTokenInfo, now: u64) -> bool {
    now + SAFETY_MARGIN_SECS < t.expires_at
}

/// At most one cached token for each scope set.
pub open spec fn tokens_unique(cache: Seq<AccessTokenInfo>) -> bool {
    forall|i: int, j: int|
        0 <= i < cache.len() && 0 <= j < cache.len() && i != j
            ==> !same_scopes(#[trigger] cache[i].scopes@, #[trigger] cache[j].scopes@)
}

/// Whether the cache holds a token for the scope set of `scopes`.
pub open spec fn has_token_for(cache: Seq<AccessTokenInfo>, scopes: Seq<String>) -> bool {
    exists|i: int| 0 <= i < cache.len() && same_scopes(#[trigger] cache[i].scopes@, scopes)
}

impl AccessTokenInfo {
    /// A copy of this value.
    pub fn copy(&self) -> (r: AccessTokenInfo)
        ensures
            token_equiv(r, *self),
    {
        AccessTokenInfo { scopes: copy_scopes(&self.scopes), token: self.token.clone(), expires_at: self.expires_at }
    }

    /// Whether the token may still be served at `now`.
    pub fn is_usable_at(&self, now: u64) -> (r: bool)
        ensures
            r == usable_at(*self, now),
    {
        self.expires_at > SAFETY_MARGIN_SECS && now < self.expires_at - SAFETY_MARGIN_SECS
    }
}

/// The position of the cached token for the scope set of `scopes`.
pub fn find_token(cache: &Vec<AccessTokenInfo>, scopes: &Vec<String>) -> (r: Option<usize>)
    ensures
        r matches Some(i) ==> i < cache.len() && same_scopes(cache@[i as int].scopes@, scopes@),
        r is None ==> !has_token_for(cache@, scopes@),
{
    let mut i: usize = 0;
    while i < cache.len()
        invariant
            0 <= i <= cache.len(),
            forall|j: int| 0 <= j < i ==> !same_scopes(#[trigger] cache@[j].scopes@, scopes@),
        decreases cache.len() - i,
    {
        if same_scope_set(&cache[i].scopes, scopes) {
            return Some(i);
        }
        i = i + 1;
    }
    None
}

/// Copies a token cache.
pub fn copy_tokens(cache: &Vec<AccessTokenInfo>) -> (r: Vec<AccessTokenInfo>)
    ensures
        tokens_equiv(r@, cache@),
{
    let mut out: Vec<AccessTokenInfo> = Vec::new();
    let mut i: usize = 0;
    while i < cache.len()
        invariant
            0 <= i <= cache.len(),
            out.len() == i,
            forall|j: int| 0 <= j < i ==> token_equiv(#[trigger] out@[j], cache@[j]),
        decreases cache.len() - i,
    {
        out.push(cache[i].copy());
        i = i + 1;
    }
    out
}

/// A refresh that has been asked for and not yet finished.
#[derive(Debug)]
pub struct PendingRefresh {
    pub id: u64,
    pub scopes: Vec<String>,
}

/// What the last finished refresh for a scope set gave, kept for the callers that waited
/// on it.
#[derive(Debug)]
pub struct RefreshOutcome {
    pub id: u64,
    pub scopes: Vec<String>,
    pub result: Result<AccessTokenInfo, FxaError>,
}

/// The refreshes in flight and the outcomes of those that finished.
#[derive(Debug)]
pub struct Refreshes {
    pub pending: Vec<PendingRefresh>,
    pub outcomes: Vec<RefreshOutcome>,
    /// The id of the next refresh; ids are never reused, not even across sign-ins.
    pub next_id: u64,
}

pub open spec fn result_equiv(a: Result<AccessTokenInfo, FxaError>, b: Result<AccessTokenInfo, FxaError>) -> bool {
    match (a, b) {
        (Ok(x), Ok(y)) => token_equiv(x, y),
        (Err(x), Err(y)) => x == y,
        _ => false,
    }
}

/// Whether a refresh for the scope set of `scopes` is outstanding.
pub open spec fn is_refreshing(pending: Seq<PendingRefresh>, scopes: Seq<String>) -> bool {
    exists|i: int| 0 <= i < pending.len() && same_scopes(#[trigger] pending[i].scopes@, scopes)
}

/// Whether the refresh `id` is outstanding.
pub open spec fn is_pending_id(pending: Seq<PendingRefresh>, id: u64) -> bool {
    exists|i: int| 0 <= i < pending.len() && (#[trigger] pending[i]).id == id
}

impl Refreshes {
    pub open spec fn wf(self) -> bool {
        &&& forall|i: int, j: int|
            0 <= i < self.pending@.len() && 0 <= j < self.pending@.len() && i != j
                ==> !same_scopes(#[trigger] self.pending@[i].scopes@, #[trigger] self.pending@[j].scopes@)
        &&& forall|i: int, j: int|
            0 <= i < self.pending@.len() && 0 <= j < self.pending@.len() && i != j
                ==> (#[trigger] self.pending@[i]).id != (#[trigger] self.pending@[j]).id
        &&& forall|i: int| 0 <= i < self.pending@.len() ==> (#[trigger] self.pending@[i]).id < self.next_id
        &&& forall|i: int, j: int|
            0 <= i < self.outcomes@.len() && 0 <= j < self.outcomes@.len() && i != j
                ==> !same_scopes(#[trigger] self.outcomes@[i].scopes@, #[trigger] self.outcomes@[j].scopes@)
    }

    /// Nothing in flight and no outcome kept.
    pub open spec fn is_idle(self) -> bool {
        self.pending.len() == 0 && self.outcomes.len() == 0
    }

    pub fn new() -> (r: Refreshes)
        ensures
            r.wf(),
            r.is_idle(),
            r.next_id == 0,
    {
        Refreshes { pending: Vec::new(), outcomes: Vec::new(), next_id: 0 }
    }

    /// Forgets every refresh in flight and every outcome; ids keep growing.
    pub fn clear(&mut self)
        ensures
            final(self).wf(),
            final(self).is_idle(),
            final(self).next_id == old(self).next_id,
    {
        self.pending = Vec::new();
        self.outcomes = Vec::new();
    }
}

} // verus!
