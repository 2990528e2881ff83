//! An identity-client core: the signed-in state of an application against an
//! identity service, its OAuth flows, its access-token cache, device commands and
//! the migration of legacy sessions.

pub mod error;
pub mod scopes;
pub mod state;
pub mod migration;
pub mod device;
pub mod token;
pub mod account;
pub mod token_steps;
pub mod auth;
pub mod laws;

pub use account::{AccountSnapshot, FirefoxAccount};
pub use auth::{CodeExchange, TokenGrant};
pub use device::{
    Device, DeviceCapability, DevicePushSubscription, DeviceRegistration, IncomingDeviceCommand, SendOutcome,
};
pub use error::{FxaError, TransportError};
pub use migration::{MigrationFailure, MigrationState};
pub use state::{AccountState, Credentials, OAuthFlow, ScopedKey};
pub use token::{AccessTokenInfo, PendingRefresh, RefreshOutcome, Refreshes, SAFETY_MARGIN_SECS};
pub use token_steps::{AccessTokenStep, RefreshRequest, TokenResponse};
