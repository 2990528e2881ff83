use vstd::prelude::*;
use crate::scopes::copy_scopes;

verus! {

/// Key material for the encrypted data of one scope.
#[derive(Debug, PartialEq, Eq)]
pub struct ScopedKey {
    pub scope: String,
    pub kid: String,
    pub k: String,
}

impl ScopedKey {
    /// A copy of this value.
    pub fn copy(&self) -> (r: ScopedKey)
        ensures
            r == *self,
    {
        ScopedKey { scope: self.scope.clone(), kid: self.kid.clone(), k: self.k.clone() }
    }
}

/// Copies a bundle of scoped keys.
pub fn copy_keys(keys: &Vec<ScopedKey>) -> (r: Vec<ScopedKey>)
    ensures
        r@ == keys@,
{
    let mut out: Vec<ScopedKey> = Vec::new();
    let mut i: usize = 0;
    while i < keys.len()
        invariant
            0 <= i <= keys.len(),
            out@ == keys@.take(i as int),
        decreases keys.len() - i,
    {
        out.push(keys[i].copy());
        assert(out@ =~= keys@.take(i + 1));
        i = i + 1;
    }
    assert(keys@.take(keys.len() as int) =~= keys@);
    out
}

/// What a signed-in account holds.
#[derive(Debug)]
pub struct Credentials {
    pub refresh_token: String,
    pub session_token: Option<String>,
    pub uid: String,
    pub scoped_keys: Vec<ScopedKey>,
    /// Set once the server has rejected the refresh token: a fresh sign-in is needed.
    pub stale: bool,
}

pub open spec fn credentials_equiv(a: Credentials, b: Credentials) -> bool {
    &&& a.refresh_token == b.refresh_token
    &&& a.session_token == b.session_token
    &&& a.uid == b.uid
    &&& a.scoped_keys@ == b.scoped_keys@
    &&& a.stale == b.stale
}

impl Credentials {
    /// A copy of this value.
    pub fn copy(&self) -> (r: Credentials)
        ensures
            credentials_equiv(r, *self),
    {
        Credentials {
            refresh_token: self.refresh_token.clone(),
            session_token: match &self.session_token {
                Some(t) => Some(t.clone()),
                None => None,
            },
            uid: self.uid.clone(),
            scoped_keys: copy_keys(&self.scoped_keys),
            stale: self.stale,
        }
    }
}

/// The metadata of an OAuth flow in progress.
#[derive(Debug)]
pub struct OAuthFlow {
    /// The anti-CSRF nonce that the callback must return.
    pub state: String,
    pub code_verifier: String,
    pub scopes: Vec<String>,
    pub code_challenge: Option<String>,
    pub created_at: u64,
}

pub open spec fn flow_equiv(a: OAuthFlow, b: OAuthFlow) -> bool {
    &&& a.state == b.state
    &&& a.code_verifier == b.code_verifier
    &&& a.scopes@ == b.scopes@
    &&& a.code_challenge == b.code_challenge
    &&& a.created_at == b.created_at
}

impl OAuthFlow {
    /// A copy of this value.
    pub fn copy(&self) -> (r: OAuthFlow)
        ensures
            flow_equiv(r, *self),
    {
        OAuthFlow {
            state: self.state.clone(),
            code_verifier: self.code_verifier.clone(),
            scopes: copy_scopes(&self.scopes),
            code_challenge: match &self.code_challenge {
                Some(c) => Some(c.clone()),
                None => None,
            },
            created_at: self.created_at,
        }
    }
}

pub open spec fn opt_flow_equiv(a: Option<OAuthFlow>, b: Option<OAuthFlow>) -> bool {
    match (a, b) {
        (None, None) => true,
        (Some(x), Some(y)) => flow_equiv(x, y),
        _ => false,
    }
}

/// The signed-in state of an account: exactly one variant holds at a time.
#[derive(Debug)]
pub enum AccountState {
    SignedOut,
    /// Signing in: an OAuth flow is in progress.
    Connecting(OAuthFlow),
    /// Signed in; a further flow (for more scopes) may be in progress.
    Connected { credentials: Credentials, flow: Option<OAuthFlow> },
}

pub open spec fn state_equiv(a: AccountState, b: AccountState) -> bool {
    match (a, b) {
        (AccountState::SignedOut, AccountState::SignedOut) => true,
        (AccountState::Connecting(x), AccountState::Connecting(y)) => flow_equiv(x, y),
        (
            AccountState::Connected { credentials: c1, flow: f1 },
            AccountState::Connected { credentials: c2, flow: f2 },
        ) => credentials_equiv(c1, c2) && opt_flow_equiv(f1, f2),
        _ => false,
    }
}

impl AccountState {
    /// The flow in progress, if any.
    pub open spec fn flow_spec(self) -> Option<OAuthFlow> {
        match self {
            AccountState::SignedOut => None,
            AccountState::Connecting(f) => Some(f),
            AccountState::Connected { flow, .. } => flow,
        }
    }

    pub open spec fn is_connected(self) -> bool {
        self is Connected
    }

    /// Whether the account is connected.
    pub fn is_connected_exec(&self) -> (r: bool)
        ensures
            r == self.is_connected(),
    {
        match self {
            AccountState::Connected { .. } => true,
            _ => false,
        }
    }

    /// A copy of this value.
    pub fn copy(&self) -> (r: AccountState)
        ensures
            state_equiv(r, *self),
    {
        match self {
            AccountState::SignedOut => AccountState::SignedOut,
            AccountState::Connecting(f) => AccountState::Connecting(f.copy()),
            AccountState::Connected { credentials, flow } => AccountState::Connected {
                credentials: credentials.copy(),
                flow: match flow {
                    Some(f) => Some(f.copy()),
                    None => None,
                },
            },
        }
    }
}

} // verus!
