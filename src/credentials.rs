use vstd::prelude::*;

use crate::directory::{is_new_method, is_new_user, opt_string_eq};
use crate::entities::{normalized, opt_view, AuthError, AuthMethod, UserRole};
use crate::platform::lowercase_ascii;
use vstd::utf8::encode_utf8;
use crate::store::AuthStore;

verus! {

/// Stands in for a stored hash where an account has none, so that the failure
/// path costs one comparison like the others.
pub const PLACEHOLDER_HASH: &'static str = "$argon2id$v=19$m=19456,t=2,p=1$placeholder";

/// Compares two strings by their UTF-8 bytes without stopping at the first
/// difference, so the time taken depends on the lengths alone.
pub fn constant_time_eq(a: &str, b: &str) -> (r: bool)
    ensures
        r == (a@ == b@),
{
    let x = a.as_bytes();
    let y = b.as_bytes();
    let mut diff: u8 = if x.len() == y.len() {
        0
    } else {
        1
    };
    let mut i: usize = 0;
    while i < x.len()
        invariant
            0 <= i <= x@.len(),
            (diff == 0) == (x@.len() == y@.len() && forall|k: int| 0 <= k < i ==> x@[k] == y@[k]),
        decreases x@.len() - i,
    {
        let yb: u8 = if i < y.len() {
            y[i]
        } else {
            0
        };
        let xb: u8 = x[i];
        let d: u8 = xb ^ yb;
        proof {
            assert((d == 0) == (xb == yb)) by (bit_vector)
                requires
                    d == xb ^ yb,
            ;
            assert(((diff | d) == 0) == (diff == 0 && d == 0)) by (bit_vector);
        }
        diff = diff | d;
        i += 1;
    }
    let same = diff == 0;
    proof {
        broadcast use vstd::utf8::encode_utf8_decode_utf8;

        if same {
            assert(x@ =~= y@);
        }
        if a@ == b@ {
            assert(x@ == y@);
        }
        assert(vstd::utf8::decode_utf8(encode_utf8(a@)) == a@);
        assert(vstd::utf8::decode_utf8(encode_utf8(b@)) == b@);
    }
    same
}

impl AuthStore {
    /// The user holds a password method whose secret is `candidate`.
    pub open spec fn password_matches(&self, user_id: u64, candidate: Seq<char>) -> bool {
        exists|i: int|
            0 <= i < self.methods@.len() && #[trigger] self.methods@[i].user_id == user_id
                && self.methods@[i].method == AuthMethod::Password
                && opt_view(self.methods@[i].secret) == Some(candidate)
    }

    /// What `verify_password` answers.
    pub open spec fn verify_password_spec(&self, email: Seq<char>, candidate: Seq<char>) -> Result<u64, AuthError> {
        if !self.has_email(normalized(email)) {
            Err(AuthError::InvalidCredentials)
        } else {
            let u = self.users@[self.email_pos(normalized(email))];
            if u.is_banned {
                Err(AuthError::AccountBanned)
            } else if self.password_matches(u.id, candidate) {
                Ok(u.id)
            } else {
                Err(AuthError::InvalidCredentials)
            }
        }
    }

    /// Checks an email and a password hash. Exactly one secret comparison runs
    /// whatever the account: an unknown email, or an account without a password
    /// secret, is compared against a placeholder hash instead.
    pub fn verify_password(&self, email: &str, candidate: &str) -> (r: Result<u64, AuthError>)
        requires
            self.wf(),
        ensures
            r == self.verify_password_spec(email@, candidate@),
    {
        let key = lowercase_ascii(email);
        let ui = match self.email_index(&key) {
            Some(i) => i,
            None => {
                let _ = constant_time_eq(candidate, PLACEHOLDER_HASH);
                return Err(AuthError::InvalidCredentials);
            },
        };
        let uid = self.users[ui].id;
        let banned = self.users[ui].is_banned;
        let mut matched: bool = false;
        let mut compared: bool = false;
        let mut i: usize = 0;
        while i < self.methods.len()
            invariant
                self.wf(),
                0 <= i <= self.methods@.len(),
                matched <==> exists|k: int|
                    0 <= k < i && #[trigger] self.methods@[k].user_id == uid
                        && self.methods@[k].method == AuthMethod::Password
                        && opt_view(self.methods@[k].secret) == Some(candidate@),
            decreases self.methods@.len() - i,
        {
            let m = &self.methods[i];
            if m.user_id == uid && m.method == AuthMethod::Password {
                let same = match &m.secret {
                    Some(s) => {
                        compared = true;
                        constant_time_eq(candidate, s.as_str())
                    },
                    None => false,
                };
                matched = matched || same;
            }
            i += 1;
        }
        if !compared {
            let _ = constant_time_eq(candidate, PLACEHOLDER_HASH);
        }
        if banned {
            Err(AuthError::AccountBanned)
        } else if matched {
            Ok(uid)
        } else {
            Err(AuthError::InvalidCredentials)
        }
    }

    pub open spec fn identity_pos(&self, provider: Seq<char>, provider_id: Seq<char>) -> int {
        choose|i: int|
            0 <= i < self.methods@.len() && opt_view(#[trigger] self.methods@[i].provider) == Some(provider)
                && opt_view(self.methods@[i].provider_id) == Some(provider_id)
    }

    /// Position of the record bound to this external identity.
    pub fn identity_index(&self, provider: &String, provider_id: &String) -> (r: Option<usize>)
        requires
            self.wf(),
        ensures
            match r {
                Some(i) => self.identity_bound(Some(provider@), Some(provider_id@)) && i == self.identity_pos(
                    provider@,
                    provider_id@,
                ),
                None => !self.identity_bound(Some(provider@), Some(provider_id@)),
            },
    {
        let p = Some(provider.clone());
        let pid = Some(provider_id.clone());
        let mut i: usize = 0;
        while i < self.methods.len()
            invariant
                self.wf(),
                0 <= i <= self.methods@.len(),
                opt_view(p) == Some(provider@),
                opt_view(pid) == Some(provider_id@),
                forall|k: int|
                    0 <= k < i ==> !(opt_view(#[trigger] self.methods@[k].provider) == Some(provider@)
                        && opt_view(self.methods@[k].provider_id) == Some(provider_id@)),
            decreases self.methods@.len() - i,
        {
            if opt_string_eq(&self.methods[i].provider, &p) && opt_string_eq(&self.methods[i].provider_id, &pid) {
                proof {
                    assert(opt_view(self.methods@[i as int].provider) == Some(provider@));
                    let j = self.identity_pos(provider@, provider_id@);
                    assert(opt_view(self.methods@[j].provider) == Some(provider@));
                }
                return Some(i);
            }
            i += 1;
        }
        None
    }

    /// Verifies an OAuth callback: returns the bound user, else links the
    /// identity to the account with the verified email, else creates an account.
    pub fn verify_oauth(&mut self, provider: &str, provider_id: &str, verified_email: &str, now: i64) -> (r: Result<
        u64,
        AuthError,
    >)
        requires
            old(self).wf(),
            old(self).next_id < u64::MAX - 1,
        ensures
            final(self).wf(),
            oauth_resolved(*old(self), *final(self), provider@, provider_id@, verified_email@, now, r),
    {
        let p = provider.to_owned();
        let pid = provider_id.to_owned();
        match self.identity_index(&p, &pid) {
            Some(i) => {
                let owner = self.methods[i].user_id;
                match self.user_index(owner) {
                    None => Err(AuthError::NotFound),
                    Some(ui) => {
                        if self.users[ui].is_banned {
                            Err(AuthError::AccountBanned)
                        } else {
                            Ok(owner)
                        }
                    },
                }
            },
            None => {
                let key = lowercase_ascii(verified_email);
                let uid = match self.email_index(&key) {
                    Some(ui) => {
                        if self.users[ui].is_banned {
                            return Err(AuthError::AccountBanned);
                        }
                        self.users[ui].id
                    },
                    None => {
                        match self.create_user(verified_email, None, UserRole::User, now) {
                            Ok(id) => {
                                proof {
                                    assert(self.users@[self.users@.len() - 1].id == id);
                                    assert(!self.identity_bound(Some(p@), Some(pid@)));
                                }
                                id
                            },
                            Err(e) => return Err(e),
                        }
                    },
                };
                proof {
                    assert(self.has_user(uid));
                    assert(!self.identity_bound(Some(p@), Some(pid@)));
                }
                match self.link_method(uid, AuthMethod::Oauth, Some(p), Some(pid), None, now) {
                    Ok(_) => Ok(uid),
                    Err(e) => Err(e),
                }
            },
        }
    }
}

/// The outcome of `verify_oauth` on `s0`, leaving `s1`.
pub open spec fn oauth_resolved(
    s0: AuthStore,
    s1: AuthStore,
    provider: Seq<char>,
    provider_id: Seq<char>,
    email: Seq<char>,
    now: i64,
    r: Result<u64, AuthError>,
) -> bool {
    if s0.identity_bound(Some(provider), Some(provider_id)) {
        let owner = s0.methods@[s0.identity_pos(provider, provider_id)].user_id;
        &&& s1 == s0
        &&& r == if !s0.has_user(owner) {
            Err(AuthError::NotFound)
        } else if s0.users@[s0.user_pos(owner)].is_banned {
            Err(AuthError::AccountBanned)
        } else {
            Ok(owner)
        }
    } else if s0.has_email(normalized(email)) {
        let u = s0.users@[s0.email_pos(normalized(email))];
        if u.is_banned {
            r == Err::<u64, AuthError>(AuthError::AccountBanned) && s1 == s0
        } else {
            &&& r == Ok::<u64, AuthError>(u.id)
            &&& s1.next_id == s0.next_id + 1
            &&& s1.users == s0.users
            &&& s1.methods@.len() == s0.methods@.len() + 1
            &&& s1.methods@.drop_last() == s0.methods@
            &&& is_new_method(s1.methods@.last(), s0.next_id, u.id, AuthMethod::Oauth, Some(provider), Some(provider_id), None, now)
            &&& s1.tokens == s0.tokens
            &&& s1.sessions == s0.sessions
        }
    } else {
        &&& r == Ok::<u64, AuthError>(s0.next_id)
        &&& s1.next_id == s0.next_id + 2
        &&& s1.users@.len() == s0.users@.len() + 1
        &&& s1.users@.drop_last() == s0.users@
        &&& is_new_user(s1.users@.last(), s0.next_id, email, None, UserRole::User, now)
        &&& s1.methods@.len() == s0.methods@.len() + 1
        &&& s1.methods@.drop_last() == s0.methods@
        &&& is_new_method(s1.methods@.last(), (s0.next_id + 1) as u64, s0.next_id, AuthMethod::Oauth, Some(provider), Some(provider_id), None, now)
        &&& s1.tokens == s0.tokens
        &&& s1.sessions == s0.sessions
    }
}

} // verus!
