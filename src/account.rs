use vstd::prelude::*;
use crate::device::{Device, DeviceRegistration, opt_registration_equiv};
use crate::error::FxaError;
use crate::migration::MigrationState;
use crate::scopes::{same_scopes, same_scope_set};
use crate::state::{AccountState, state_equiv};
use crate::token::{AccessTokenInfo, Refreshes, tokens_unique, tokens_equiv, copy_tokens};

verus! {

/// The signed-in state of an application, with everything derived from it.
///
/// Every mutating operation takes `&mut self`: at most one runs at a time.
#[derive(Debug)]
pub struct FirefoxAccount {
    pub content_url: String,
    pub client_id: String,
    pub redirect_uri: String,
    pub token_server_url_override: Option<String>,
    pub state: AccountState,
    /// Cached access tokens, at most one for each scope set.
    pub access_tokens: Vec<AccessTokenInfo>,
    /// The refreshes in flight, and the outcomes kept for callers that waited on them.
    pub refreshing: Refreshes,
    /// The most recent device list.
    pub devices: Vec<Device>,
    pub registration: Option<DeviceRegistration>,
    /// The index of the last incoming command handed to the caller.
    pub last_command_index: u64,
    pub migration: MigrationState,
}

/// Whether no two cached tokens share a scope set.
pub fn tokens_are_unique(cache: &Vec<AccessTokenInfo>) -> (r: bool)
    ensures
        r == tokens_unique(cache@),
{
    let mut i: usize = 0;
    while i < cache.len()
        invariant
            0 <= i <= cache.len(),
            forall|a: int, b: int|
                0 <= a < i && 0 <= b < cache.len() && a != b
                    ==> !same_scopes(#[trigger] cache@[a].scopes@, #[trigger] cache@[b].scopes@),
        decreases cache.len() - i,
    {
        let mut j: usize = 0;
        while j < cache.len()
            invariant
                0 <= i < cache.len(),
                0 <= j <= cache.len(),
                forall|a: int, b: int|
                    0 <= a < i && 0 <= b < cache.len() && a != b
                        ==> !same_scopes(#[trigger] cache@[a].scopes@, #[trigger] cache@[b].scopes@),
                forall|b: int| 0 <= b < j && b != i ==> !same_scopes(cache@[i as int].scopes@, #[trigger] cache@[b].scopes@),
            decreases cache.len() - j,
        {
            if j != i && same_scope_set(&cache[i].scopes, &cache[j].scopes) {
                return false;
            }
            j = j + 1;
        }
        i = i + 1;
    }
    true
}

/// What a persisted account holds: no in-flight refresh and no device list.
#[derive(Debug)]
pub struct AccountSnapshot {
    pub content_url: String,
    pub client_id: String,
    pub redirect_uri: String,
    pub token_server_url_override: Option<String>,
    pub state: AccountState,
    pub access_tokens: Vec<AccessTokenInfo>,
    pub registration: Option<DeviceRegistration>,
    pub last_command_index: u64,
    pub migration: MigrationState,
}

/// Whether a snapshot describes an account that can exist.
pub open spec fn snapshot_valid(s: AccountSnapshot) -> bool {
    &&& tokens_unique(s.access_tokens@)
    &&& !s.state.is_connected() ==> s.access_tokens.len() == 0 && s.registration is None
}

impl FirefoxAccount {
    /// The account's invariant.
    pub open spec fn wf(self) -> bool {
        &&& tokens_unique(self.access_tokens@)
        &&& self.refreshing.wf()
        &&& !self.state.is_connected() ==> {
            &&& self.access_tokens.len() == 0
            &&& self.refreshing.is_idle()
            &&& self.registration is None
            &&& self.devices.len() == 0
        }
    }

    /// Nothing of the account is left but its configuration.
    pub open spec fn is_cleared(self) -> bool {
        &&& self.state is SignedOut
        &&& self.access_tokens.len() == 0
        &&& self.refreshing.is_idle()
        &&& self.devices.len() == 0
        &&& self.registration is None
        &&& self.last_command_index == 0
        &&& self.migration == MigrationState::NotStarted
    }

    /// The configuration is the same in both.
    pub open spec fn same_config(self, other: FirefoxAccount) -> bool {
        &&& self.content_url == other.content_url
        &&& self.client_id == other.client_id
        &&& self.redirect_uri == other.redirect_uri
        &&& self.token_server_url_override == other.token_server_url_override
    }

    /// What a snapshot records of this account.
    pub open spec fn snapshot_of(self, s: AccountSnapshot) -> bool {
        &&& s.content_url == self.content_url
        &&& s.client_id == self.client_id
        &&& s.redirect_uri == self.redirect_uri
        &&& s.token_server_url_override == self.token_server_url_override
        &&& state_equiv(s.state, self.state)
        &&& tokens_equiv(s.access_tokens@, self.access_tokens@)
        &&& opt_registration_equiv(s.registration, self.registration)
        &&& s.last_command_index == self.last_command_index
        &&& s.migration == self.migration
    }

    /// The two accounts hold equivalent persistent state.
    pub open spec fn equivalent(self, other: FirefoxAccount) -> bool {
        &&& self.same_config(other)
        &&& state_equiv(self.state, other.state)
        &&& tokens_equiv(self.access_tokens@, other.access_tokens@)
        &&& opt_registration_equiv(self.registration, other.registration)
        &&& self.last_command_index == other.last_command_index
        &&& self.migration == other.migration
    }

    /// Creates an account that is not connected to any account.
    pub fn new(
        content_url: &str,
        client_id: &str,
        redirect_uri: &str,
        token_server_url_override: &Option<String>,
    ) -> (r: FirefoxAccount)
        ensures
            r.wf(),
            r.is_cleared(),
            r.content_url@ == content_url@,
            r.client_id@ == client_id@,
            r.redirect_uri@ == redirect_uri@,
            r.token_server_url_override == *token_server_url_override,
    {
        FirefoxAccount {
            content_url: content_url.to_string(),
            client_id: client_id.to_string(),
            redirect_uri: redirect_uri.to_string(),
            token_server_url_override: match token_server_url_override {
                Some(u) => Some(u.clone()),
                None => None,
            },
            state: AccountState::SignedOut,
            access_tokens: Vec::new(),
            refreshing: Refreshes::new(),
            devices: Vec::new(),
            registration: None,
            last_command_index: 0,
            migration: MigrationState::NotStarted,
        }
    }

    /// Signs out: erases the credentials, the device registration, every cache and
    /// any flow in progress. Safe from every state.
    pub fn disconnect(&mut self)
        ensures
            final(self).wf(),
            final(self).is_cleared(),
            final(self).same_config(*old(self)),
            final(self).refreshing.next_id == old(self).refreshing.next_id,
    {
        self.state = AccountState::SignedOut;
        self.access_tokens = Vec::new();
        self.refreshing.clear();
        self.devices = Vec::new();
        self.registration = None;
        self.last_command_index = 0;
        self.migration = MigrationState::NotStarted;
    }

    /// Drops every cached access token; the credentials stay.
    pub fn clear_access_token_cache(&mut self)
        requires
            old(self).wf(),
        ensures
            final(self).wf(),
            final(self).access_tokens.len() == 0,
            final(self).state == old(self).state,
            final(self).refreshing == old(self).refreshing,
            final(self).devices == old(self).devices,
            final(self).registration == old(self).registration,
            final(self).last_command_index == old(self).last_command_index,
            final(self).migration == old(self).migration,
            final(self).same_config(*old(self)),
    {
        self.access_tokens = Vec::new();
    }

    /// The persistent state of the account.
    pub fn to_snapshot(&self) -> (s: AccountSnapshot)
        ensures
            self.snapshot_of(s),
    {
        AccountSnapshot {
            content_url: self.content_url.clone(),
            client_id: self.client_id.clone(),
            redirect_uri: self.redirect_uri.clone(),
            token_server_url_override: match &self.token_server_url_override {
                Some(u) => Some(u.clone()),
                None => None,
            },
            state: self.state.copy(),
            access_tokens: copy_tokens(&self.access_tokens),
            registration: match &self.registration {
                Some(reg) => Some(reg.copy()),
                None => None,
            },
            last_command_index: self.last_command_index,
            migration: self.migration,
        }
    }

    /// Restores an account from a snapshot; a snapshot that no account could have
    /// produced is `Fatal`.
    pub fn from_snapshot(s: AccountSnapshot) -> (r: Result<FirefoxAccount, FxaError>)
        ensures
            restores(s, r),
    {
        let connected = match &s.state {
            AccountState::Connected { .. } => true,
            _ => false,
        };
        if !tokens_are_unique(&s.access_tokens) {
            return Err(FxaError::Fatal);
        }
        if !connected && (s.access_tokens.len() > 0 || s.registration.is_some()) {
            return Err(FxaError::Fatal);
        }
        Ok(FirefoxAccount {
            content_url: s.content_url,
            client_id: s.client_id,
            redirect_uri: s.redirect_uri,
            token_server_url_override: s.token_server_url_override,
            state: s.state,
            access_tokens: s.access_tokens,
            refreshing: Refreshes::new(),
            devices: Vec::new(),
            registration: s.registration,
            last_command_index: s.last_command_index,
            migration: s.migration,
        })
    }
}

/// What restoring the snapshot `s` gives.
pub open spec fn restores(s: AccountSnapshot, r: Result<FirefoxAccount, FxaError>) -> bool {
    &&& r is Ok <==> snapshot_valid(s)
    &&& r is Err ==> r == Err::<FirefoxAccount, FxaError>(FxaError::Fatal)
    &&& r matches Ok(a) ==> {
        &&& a.wf()
        &&& a.content_url == s.content_url
        &&& a.client_id == s.client_id
        &&& a.redirect_uri == s.redirect_uri
        &&& a.token_server_url_override == s.token_server_url_override
        &&& a.state == s.state
        &&& a.access_tokens == s.access_tokens
        &&& a.refreshing.is_idle()
        &&& a.devices.len() == 0
        &&& a.registration == s.registration
        &&& a.last_command_index == s.last_command_index
        &&& a.migration == s.migration
    }
}

} // verus!
