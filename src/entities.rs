use vstd::prelude::*;

verus! {

/// Role of an account.
#[derive(Debug, Clone, Copy, PartialEq, Eq, Structural)]
pub enum UserRole {
    User,
    Admin,
}

/// Kind of primary proof bound to an account.
#[derive(Debug, Clone, Copy, PartialEq, Eq, Structural)]
pub enum AuthMethod {
    Password,
    Oauth,
    Webauthn,
}

/// Channel of a second-factor challenge.
#[derive(Debug, Clone, Copy, PartialEq, Eq, Structural)]
pub enum TwoFactorMethod {
    Authenticator,
    Email,
    Sms,
}

/// Failure kinds, kept distinct for auditing.
#[derive(Debug, Clone, Copy, PartialEq, Eq, Structural)]
pub enum AuthError {
    NotFound,
    Conflict,
    InvalidCredentials,
    InvalidAssertion,
    InvalidToken,
    Expired,
    AccountBanned,
    InvalidState,
    Revoked,
}

pub open spec fn lower_char(c: char) -> char {
    if 'A' <= c && c <= 'Z' {
        ((c as u32) + 32) as char
    } else {
        c
    }
}

/// An email address in its stored form: ASCII letters in lower case.
pub open spec fn normalized(s: Seq<char>) -> Seq<char> {
    Seq::new(s.len(), |i: int| lower_char(s[i]))
}

/// An account.
pub struct User {
    pub id: u64,
    /// Stored in normalized form.
    pub email: String,
    /// Password hash given when the account was created; the password method
    /// record holds the current one.
    pub password: Option<String>,
    pub role: UserRole,
    pub is_banned: bool,
    /// Second factor that login must pass, if any.
    pub two_factor: Option<TwoFactorMethod>,
    /// Sessions created before this instant are revoked.
    pub revoked_before: i64,
    pub created_at: i64,
    pub updated_at: i64,
}

/// One proof mechanism bound to an account.
pub struct AuthMethodRecord {
    pub id: u64,
    pub user_id: u64,
    pub method: AuthMethod,
    /// OAuth provider name, or the WebAuthn relying party.
    pub provider: Option<String>,
    /// Identity assigned by the provider, or the WebAuthn credential id.
    pub provider_id: Option<String>,
    /// Password hash or public key reference.
    pub secret: Option<String>,
    pub created_at: i64,
    pub updated_at: i64,
}

/// A single-use, time-boxed second-factor challenge.
#[derive(Clone, Copy)]
pub struct TwoFactorToken {
    pub id: u64,
    pub user_id: u64,
    /// Six-digit one-time code.
    pub token: u32,
    pub method: TwoFactorMethod,
    pub expires_at: i64,
    pub used: bool,
    pub created_at: i64,
}

/// A bearer of authenticated identity.
pub struct Session {
    pub id: u128,
    pub user_id: u64,
    pub user_agent: Option<String>,
    pub expires_at: i64,
    pub created_at: i64,
    pub updated_at: i64,
}

pub open spec fn opt_view(o: Option<String>) -> Option<Seq<char>> {
    match o {
        Some(s) => Some(s@),
        None => None,
    }
}

/// `now + window`, clamped to the largest timestamp.
pub open spec fn expiry(now: i64, window: i64) -> i64 {
    if now + window <= i64::MAX {
        (now + window) as i64
    } else {
        i64::MAX
    }
}

pub fn expiry_after(now: i64, window: i64) -> (r: i64)
    requires
        window > 0,
    ensures
        r == expiry(now, window),
{
    match now.checked_add(window) {
        Some(t) => t,
        None => i64::MAX,
    }
}

} // verus!
