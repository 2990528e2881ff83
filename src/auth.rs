use vstd::prelude::*;
use crate::account::FirefoxAccount;
use crate::error::{FxaError, TransportError, transport_error_spec};
use crate::scopes::{join_scopes, scopes_param, copy_scopes};
use crate::state::{AccountState, Credentials, OAuthFlow, ScopedKey};

verus! {

/// What the server hands over once an authorization code or a legacy session token has
/// been exchanged; the scoped keys are already decrypted.
#[derive(Debug)]
pub struct TokenGrant {
    pub refresh_token: String,
    pub session_token: Option<String>,
    pub uid: String,
    pub scoped_keys: Vec<ScopedKey>,
}

/// An authorization-code exchange for the transport to perform.
#[derive(Debug, PartialEq, Eq)]
pub struct CodeExchange {
    pub code: String,
    pub code_verifier: String,
}

/// The query of an authorization URL.
pub open spec fn authorization_query(
    client_id: Seq<char>,
    redirect_uri: Seq<char>,
    scopes: Seq<String>,
    state: Seq<char>,
    challenge: Seq<char>,
    entrypoint: Seq<char>,
) -> Seq<char> {
    "client_id="@ + client_id + "&redirect_uri="@ + redirect_uri + "&scope="@ + join_scopes(scopes)
        + "&state="@ + state + "&code_challenge_method=S256&code_challenge="@ + challenge
        + "&access_type=offline&entrypoint="@ + entrypoint
}

/// The state after a flow begins: it supersedes any flow in progress, and a connected
/// account stays connected.
pub open spec fn with_flow(s: AccountState, f: OAuthFlow) -> AccountState {
    match s {
        AccountState::Connected { credentials, .. } => AccountState::Connected { credentials, flow: Some(f) },
        _ => AccountState::Connecting(f),
    }
}

/// Whether `state` is the nonce of the flow in progress in `s`.
pub open spec fn flow_matches(s: AccountState, state: Seq<char>) -> bool {
    s.flow_spec() matches Some(f) && f.state@ == state
}

/// No key of `keys` shares its scope with another.
pub open spec fn keys_unique(keys: Seq<ScopedKey>) -> bool {
    forall|i: int, j: int|
        0 <= i < keys.len() && 0 <= j < keys.len() && i != j ==> (#[trigger] keys[i]).scope@ != (#[trigger] keys[j]).scope@
}

/// Whether `keys` holds a key for `scope`.
pub open spec fn has_key_for(keys: Seq<ScopedKey>, scope: Seq<char>) -> bool {
    exists|i: int| 0 <= i < keys.len() && (#[trigger] keys[i]).scope@ == scope
}

/// `r` keeps every key of `keys` as it is and adds, from `incoming`, a key for each scope
/// that had none: a key already held is never derived again.
pub open spec fn keys_merged(keys: Seq<ScopedKey>, incoming: Seq<ScopedKey>, r: Seq<ScopedKey>) -> bool {
    &&& r.len() >= keys.len()
    &&& r.subrange(0, keys.len() as int) == keys
    &&& forall|j: int| keys.len() <= j < r.len() ==> incoming.contains(#[trigger] r[j]) && !has_key_for(keys, r[j].scope@)
    &&& forall|i: int| 0 <= i < incoming.len() ==> has_key_for(r, (#[trigger] incoming[i]).scope@)
    &&& keys_unique(keys) ==> keys_unique(r)
}

/// The state once a grant is committed: connected, with no flow in progress.
pub open spec fn committed_state(old: AccountState, g: TokenGrant, keys: Seq<ScopedKey>) -> bool {
    old matches AccountState::Connected { credentials, .. } ==> keys_merged(credentials.scoped_keys@, g.scoped_keys@, keys)
}

/// What committing the grant `g` does to the account.
pub open spec fn commits(old: FirefoxAccount, g: TokenGrant, new: FirefoxAccount) -> bool {
    &&& new.state matches AccountState::Connected { credentials, flow }
    &&& flow is None
    &&& credentials.refresh_token == g.refresh_token
    &&& credentials.session_token == g.session_token
    &&& credentials.uid == g.uid
    &&& !credentials.stale
    &&& (old.state matches AccountState::Connected { credentials: c, .. }
        ==> keys_merged(c.scoped_keys@, g.scoped_keys@, credentials.scoped_keys@))
    &&& (!old.state.is_connected() ==> keys_merged(Seq::empty(), g.scoped_keys@, credentials.scoped_keys@))
    &&& new.access_tokens.len() == 0
    &&& new.refreshing.is_idle()
    &&& new.refreshing.next_id == old.refreshing.next_id
    &&& new.same_config(old)
    &&& new.devices == old.devices
    &&& new.registration == old.registration
    &&& new.last_command_index == old.last_command_index
}

/// Adds to `keys` a key for each scope of `incoming` that has none yet.
pub fn merge_scoped_keys(keys: &mut Vec<ScopedKey>, incoming: Vec<ScopedKey>)
    ensures
        keys_merged(old(keys)@, incoming@, final(keys)@),
{
    let ghost start = keys@;
    let mut i: usize = 0;
    while i < incoming.len()
        invariant
            0 <= i <= incoming.len(),
            keys@.len() >= start.len(),
            keys@.subrange(0, start.len() as int) == start,
            forall|j: int| start.len() <= j < keys@.len() ==> incoming@.contains(#[trigger] keys@[j]) && !has_key_for(start, keys@[j].scope@),
            forall|k: int| 0 <= k < i ==> has_key_for(keys@, (#[trigger] incoming@[k]).scope@),
            keys_unique(start) ==> keys_unique(keys@),
        decreases incoming.len() - i,
    {
        let mut found = false;
        let mut j: usize = 0;
        while j < keys.len()
            invariant
                0 <= i < incoming.len(),
                0 <= j <= keys.len(),
                !found ==> forall|m: int| 0 <= m < j ==> (#[trigger] keys@[m]).scope@ != incoming@[i as int].scope@,
                found ==> has_key_for(keys@, incoming@[i as int].scope@),
            decreases keys.len() - j,
        {
            if keys[j].scope == incoming[i].scope {
                found = true;
            }
            j = j + 1;
        }
        if !found {
            let ghost before = keys@;
            keys.push(incoming[i].copy());
            proof {
                assert(keys@.subrange(0, start.len() as int) =~= before.subrange(0, start.len() as int));
                assert(incoming@.contains(keys@[before.len() as int]));
                assert(keys@[before.len() as int] == incoming@[i as int]);
                assert forall|k: int| 0 <= k <= i implies has_key_for(keys@, (#[trigger] incoming@[k]).scope@) by {
                    if k < i {
                        let m = choose|m: int| 0 <= m < before.len() && (#[trigger] before[m]).scope@ == incoming@[k].scope@;
                        assert(keys@[m] == before[m]);
                    } else {
                        assert(keys@[before.len() as int].scope@ == incoming@[k].scope@);
                    }
                }
                assert forall|m: int| 0 <= m < start.len() implies (#[trigger] start[m]).scope@ != incoming@[i as int].scope@ by {
                    assert(before[m] == start[m]);
                }
                assert forall|j2: int| start.len() <= j2 < keys@.len()
                    implies incoming@.contains(#[trigger] keys@[j2]) && !has_key_for(start, keys@[j2].scope@) by {
                    if j2 < before.len() {
                        assert(keys@[j2] == before[j2]);
                    }
                }
            }
        }
        i = i + 1;
    }
}

impl FirefoxAccount {
    /// Stores `flow` as the flow in progress, superseding any earlier one.
    fn start_flow(&mut self, flow: OAuthFlow)
        requires
            old(self).wf(),
        ensures
            final(self).wf(),
            final(self).state == with_flow(old(self).state, flow),
            final(self).same_config(*old(self)),
            final(self).access_tokens == old(self).access_tokens,
            final(self).refreshing == old(self).refreshing,
            final(self).devices == old(self).devices,
            final(self).registration == old(self).registration,
            final(self).last_command_index == old(self).last_command_index,
            final(self).migration == old(self).migration,
    {
        let mut st = AccountState::SignedOut;
        core::mem::swap(&mut st, &mut self.state);
        self.state = match st {
            AccountState::Connected { credentials, .. } => AccountState::Connected { credentials, flow: Some(flow) },
            _ => AccountState::Connecting(flow),
        };
    }

    /// The query of an authorization URL for this client.
    fn authorization_query(&self, scopes: &Vec<String>, state: &str, challenge: &str, entrypoint: &str) -> (r: String)
        ensures
            r@ == authorization_query(self.client_id@, self.redirect_uri@, scopes@, state@, challenge@, entrypoint@),
    {
        let mut q = String::new();
        q.append("client_id=");
        q.append(self.client_id.as_str());
        q.append("&redirect_uri=");
        q.append(self.redirect_uri.as_str());
        q.append("&scope=");
        let sp = scopes_param(scopes);
        q.append(sp.as_str());
        q.append("&state=");
        q.append(state);
        q.append("&code_challenge_method=S256&code_challenge=");
        q.append(challenge);
        q.append("&access_type=offline&entrypoint=");
        q.append(entrypoint);
        q
    }

    /// Begins an OAuth flow for `scopes`, with the fresh nonce `state` and PKCE pair
    /// `code_verifier` / `code_challenge` that the caller generated. Any flow in progress
    /// is superseded. Returns the URL to direct the user to.
    pub fn begin_oauth_flow(
        &mut self,
        scopes: &Vec<String>,
        entrypoint: &str,
        state: &str,
        code_verifier: &str,
        code_challenge: &str,
        now: u64,
    ) -> (url: String)
        requires
            old(self).wf(),
        ensures
            final(self).wf(),
            url@ == old(self).content_url@ + "/authorization?"@ + authorization_query(
                old(self).client_id@, old(self).redirect_uri@, scopes@, state@, code_challenge@, entrypoint@),
            begun(*old(self), scopes@, state@, code_verifier@, code_challenge@, now, *final(self)),
    {
        let mut url = self.content_url.clone();
        url.append("/authorization?");
        let q = self.authorization_query(scopes, state, code_challenge, entrypoint);
        url.append(q.as_str());
        let flow = OAuthFlow {
            state: state.to_string(),
            code_verifier: code_verifier.to_string(),
            scopes: copy_scopes(scopes),
            code_challenge: Some(code_challenge.to_string()),
            created_at: now,
        };
        self.start_flow(flow);
        url
    }

    /// Begins a pairing flow from the channel at `pairing_url`; otherwise as
    /// `begin_oauth_flow`.
    pub fn begin_pairing_flow(
        &mut self,
        pairing_url: &str,
        scopes: &Vec<String>,
        entrypoint: &str,
        state: &str,
        code_verifier: &str,
        code_challenge: &str,
        now: u64,
    ) -> (url: String)
        requires
            old(self).wf(),
        ensures
            final(self).wf(),
            url@ == pairing_url@ + "#"@ + authorization_query(
                old(self).client_id@, old(self).redirect_uri@, scopes@, state@, code_challenge@, entrypoint@),
            begun(*old(self), scopes@, state@, code_verifier@, code_challenge@, now, *final(self)),
    {
        let mut url = pairing_url.to_string();
        url.append("#");
        let q = self.authorization_query(scopes, state, code_challenge, entrypoint);
        url.append(q.as_str());
        let flow = OAuthFlow {
            state: state.to_string(),
            code_verifier: code_verifier.to_string(),
            scopes: copy_scopes(scopes),
            code_challenge: Some(code_challenge.to_string()),
            created_at: now,
        };
        self.start_flow(flow);
        url
    }

    /// Checks the nonce of an authorization callback and returns the exchange for the
    /// transport to perform. Changes nothing.
    pub fn oauth_code_exchange(&self, state: &str, code: &str) -> (r: Result<CodeExchange, FxaError>)
        ensures
            r is Ok <==> flow_matches(self.state, state@),
            r is Err ==> r == Err::<CodeExchange, FxaError>(FxaError::FlowMismatch),
            r matches Ok(ex) ==> ex.code@ == code@ && ex.code_verifier == self.state.flow_spec()->Some_0.code_verifier,
    {
        let flow = match &self.state {
            AccountState::SignedOut => None,
            AccountState::Connecting(f) => Some(f),
            AccountState::Connected { flow, .. } => match flow {
                Some(f) => Some(f),
                None => None,
            },
        };
        match flow {
            Some(f) => {
                if f.state == state.to_string() {
                    Ok(CodeExchange { code: code.to_string(), code_verifier: f.code_verifier.clone() })
                } else {
                    Err(FxaError::FlowMismatch)
                }
            },
            None => Err(FxaError::FlowMismatch),
        }
    }

    /// Commits the credentials of a grant: the single point where the account becomes
    /// connected.
    pub(crate) fn commit_grant(&mut self, g: TokenGrant)
        requires
            old(self).wf(),
        ensures
            final(self).wf(),
            commits(*old(self), g, *final(self)),
            final(self).migration == old(self).migration,
    {
        let mut st = AccountState::SignedOut;
        core::mem::swap(&mut st, &mut self.state);
        let mut keys = match st {
            AccountState::Connected { credentials, .. } => credentials.scoped_keys,
            _ => Vec::new(),
        };
        merge_scoped_keys(&mut keys, g.scoped_keys);
        self.state = AccountState::Connected {
            credentials: Credentials {
                refresh_token: g.refresh_token,
                session_token: g.session_token,
                uid: g.uid,
                scoped_keys: keys,
                stale: false,
            },
            flow: None,
        };
        self.access_tokens = Vec::new();
        self.refreshing.clear();
    }

    /// Completes the flow whose nonce is `state` with the outcome of its code exchange.
    /// A nonce that is not the one of the flow in progress, or no flow in progress, is
    /// `FlowMismatch`; a failed exchange is the transport's error; in both cases nothing
    /// changes.
    pub fn complete_oauth_flow(&mut self, state: &str, exchange: Result<TokenGrant, TransportError>) -> (r: Result<(), FxaError>)
        requires
            old(self).wf(),
        ensures
            final(self).wf(),
            completed(*old(self), state@, exchange, r, *final(self)),
    {
        let matched = match self.oauth_code_exchange(state, "") {
            Ok(_) => true,
            Err(_) => false,
        };
        if !matched {
            return Err(FxaError::FlowMismatch);
        }
        match exchange {
            Ok(g) => {
                self.commit_grant(g);
                Ok(())
            },
            Err(e) => Err(FxaError::from_transport(e)),
        }
    }
}

/// What completing the flow whose nonce is `state` with the outcome `exchange` does.
pub open spec fn completed(
    old: FirefoxAccount,
    state: Seq<char>,
    exchange: Result<TokenGrant, TransportError>,
    r: Result<(), FxaError>,
    new: FirefoxAccount,
) -> bool {
    &&& !flow_matches(old.state, state) ==> r == Err::<(), FxaError>(FxaError::FlowMismatch) && new == old
    &&& flow_matches(old.state, state) ==> match exchange {
        Ok(g) => r is Ok && commits(old, g, new) && new.migration == old.migration,
        Err(e) => r == Err::<(), FxaError>(transport_error_spec(e)) && new == old,
    }
}

/// What beginning a flow leaves: the flow is in progress and nothing else changed.
pub open spec fn begun(
    old: FirefoxAccount,
    scopes: Seq<String>,
    state: Seq<char>,
    code_verifier: Seq<char>,
    code_challenge: Seq<char>,
    now: u64,
    new: FirefoxAccount,
) -> bool {
    &&& new.state.flow_spec() matches Some(f)
    &&& f.state@ == state
    &&& f.code_verifier@ == code_verifier
    &&& f.scopes@ == scopes
    &&& f.code_challenge matches Some(c) && c@ == code_challenge
    &&& f.created_at == now
    &&& new.state.is_connected() == old.state.is_connected()
    &&& (old.state matches AccountState::Connected { credentials, .. }
        ==> new.state matches AccountState::Connected { credentials: c2, .. } && c2 == credentials)
    &&& new.same_config(old)
    &&& new.access_tokens == old.access_tokens
    &&& new.refreshing == old.refreshing
    &&& new.devices == old.devices
    &&& new.registration == old.registration
    &&& new.last_command_index == old.last_command_index
    &&& new.migration == old.migration
}

} // verus!
