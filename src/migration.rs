use vstd::prelude::*;
use crate::account::FirefoxAccount;
use crate::auth::{TokenGrant, commits};
use crate::error::{FxaError, TransportError, transport_error_spec};

verus! {

/// Why a migration of a legacy session failed.
#[derive(Debug, Clone, Copy, PartialEq, Eq, Structural)]
pub enum MigrationFailure {
    Network,
    InvalidSession,
    RateLimited,
}

/// Progress of the migration of a legacy session-token account to OAuth.
#[derive(Debug, Clone, Copy, PartialEq, Eq, Structural)]
pub enum MigrationState {
    NotStarted,
    InProgress,
    Succeeded,
    Failed(MigrationFailure),
}

/// Why a migration failed, from the transport's classification of the failure.
pub open spec fn failure_of(e: TransportError) -> MigrationFailure {
    match e {
        TransportError::Network | TransportError::ServerError => MigrationFailure::Network,
        TransportError::InvalidGrant | TransportError::InvalidToken => MigrationFailure::InvalidSession,
        TransportError::RateLimited => MigrationFailure::RateLimited,
    }
}

impl MigrationFailure {
    /// The reason recorded for a failed exchange of a legacy session token.
    pub fn from_transport(e: TransportError) -> (r: MigrationFailure)
        ensures
            r == failure_of(e),
    {
        match e {
            TransportError::Network | TransportError::ServerError => MigrationFailure::Network,
            TransportError::InvalidGrant | TransportError::InvalidToken => MigrationFailure::InvalidSession,
            TransportError::RateLimited => MigrationFailure::RateLimited,
        }
    }
}

/// Whether a migration may start: it has not, or the last attempt failed.
pub open spec fn may_start(m: MigrationState) -> bool {
    m is NotStarted || m is Failed
}

impl FirefoxAccount {
    /// Starts a migration of a legacy session token; retries are the caller's choice.
    /// Starting while one is in progress or after one succeeded is `Fatal`.
    pub fn begin_migration(&mut self) -> (r: Result<(), FxaError>)
        requires
            old(self).wf(),
        ensures
            final(self).wf(),
            may_start(old(self).migration) ==> r is Ok && *final(self) == (FirefoxAccount { migration: MigrationState::InProgress, ..*old(self) }),
            !may_start(old(self).migration) ==> r == Err::<(), FxaError>(FxaError::Fatal) && *final(self) == *old(self),
    {
        match self.migration {
            MigrationState::NotStarted | MigrationState::Failed(_) => {
                self.migration = MigrationState::InProgress;
                Ok(())
            },
            _ => Err(FxaError::Fatal),
        }
    }

    /// Takes the outcome of exchanging the legacy session token. Success commits the
    /// credentials as a completed OAuth flow does; failure records its reason and leaves
    /// the account as it was.
    pub fn complete_migration(&mut self, outcome: Result<TokenGrant, TransportError>) -> (r: Result<(), FxaError>)
        requires
            old(self).wf(),
        ensures
            final(self).wf(),
            !(old(self).migration is InProgress) ==> r == Err::<(), FxaError>(FxaError::Fatal) && *final(self) == *old(self),
            old(self).migration is InProgress ==> match outcome {
                Ok(g) => r is Ok && commits(*old(self), g, *final(self)) && final(self).migration == MigrationState::Succeeded,
                Err(e) => {
                    &&& r == Err::<(), FxaError>(transport_error_spec(e))
                    &&& *final(self) == (FirefoxAccount { migration: MigrationState::Failed(failure_of(e)), ..*old(self) })
                },
            },
    {
        if self.migration != MigrationState::InProgress {
            return Err(FxaError::Fatal);
        }
        match outcome {
            Ok(g) => {
                self.commit_grant(g);
                self.migration = MigrationState::Succeeded;
                Ok(())
            },
            Err(e) => {
                self.migration = MigrationState::Failed(MigrationFailure::from_transport(e));
                Err(FxaError::from_transport(e))
            },
        }
    }
}

} // verus!
