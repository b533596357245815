//! Authentication and session authority: user directory, credential
//! verification, second-factor challenges and session lifecycle over one
//! store, with every operation's outcome stated as a predicate on the store
//! before and after.

pub mod dtos;
pub mod entities;
mod platform;
pub mod store;
pub mod directory;
pub mod credentials;
pub mod two_factor;
pub mod sessions;
pub mod laws;
pub mod orchestrator;
pub mod clocked;

pub use entities::{AuthError, AuthMethod, TwoFactorMethod, UserRole};
pub use orchestrator::LoginOutcome;
pub use store::AuthStore;
