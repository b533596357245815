use vstd::prelude::*;

use crate::entities::{opt_view, AuthError, AuthMethod, TwoFactorMethod};
use crate::sessions::session_created;
use crate::store::AuthStore;
use crate::two_factor::challenge_answered;

verus! {

/// Where a successful primary authentication leads.
#[derive(Debug, Clone, Copy, PartialEq, Eq, Structural)]
pub enum LoginOutcome {
    /// A session with this identifier was issued.
    Authenticated(u128),
    /// The user must answer a second-factor challenge on this channel first.
    SecondFactorRequired(u64, TwoFactorMethod),
}

impl AuthStore {
    /// Record `i` is a passkey with credential id `credential_id`.
    pub open spec fn is_passkey(&self, i: int, credential_id: Seq<char>) -> bool {
        &&& 0 <= i < self.methods@.len()
        &&& self.methods@[i].method == AuthMethod::Webauthn
        &&& opt_view(self.methods@[i].provider_id) == Some(credential_id)
    }

    pub open spec fn has_passkey(&self, credential_id: Seq<char>) -> bool {
        exists|i: int| #[trigger] self.is_passkey(i, credential_id)
    }

    /// The first passkey record with this credential id.
    pub open spec fn passkey_pos(&self, credential_id: Seq<char>) -> int {
        choose|i: int|
            #[trigger] self.is_passkey(i, credential_id) && forall|k: int| 0 <= k < i ==> !self.is_passkey(k, credential_id)
    }

    /// What `verify_webauthn` answers.
    pub open spec fn verify_webauthn_spec(&self, credential_id: Seq<char>, assertion_valid: bool) -> Result<u64, AuthError> {
        if !assertion_valid {
            Err(AuthError::InvalidAssertion)
        } else if !self.has_passkey(credential_id) {
            Err(AuthError::NotFound)
        } else {
            let owner = self.methods@[self.passkey_pos(credential_id)].user_id;
            if !self.has_user(owner) {
                Err(AuthError::NotFound)
            } else if self.users@[self.user_pos(owner)].is_banned {
                Err(AuthError::AccountBanned)
            } else {
                Ok(owner)
            }
        }
    }

    /// Resolves the user of a passkey whose assertion was checked by the
    /// WebAuthn verifier with outcome `assertion_valid`.
    pub fn verify_webauthn(&self, credential_id: &str, assertion_valid: bool) -> (r: Result<u64, AuthError>)
        requires
            self.wf(),
        ensures
            r == self.verify_webauthn_spec(credential_id@, assertion_valid),
    {
        if !assertion_valid {
            return Err(AuthError::InvalidAssertion);
        }
        let cid = Some(credential_id.to_owned());
        let mut i: usize = 0;
        while i < self.methods.len()
            invariant
                self.wf(),
                0 <= i <= self.methods@.len(),
                opt_view(cid) == Some(credential_id@),
                assertion_valid,
                forall|k: int| 0 <= k < i ==> !#[trigger] self.is_passkey(k, credential_id@),
            decreases self.methods@.len() - i,
        {
            if self.methods[i].method == AuthMethod::Webauthn && crate::directory::opt_string_eq(
                &self.methods[i].provider_id,
                &cid,
            ) {
                proof {
                    assert(self.is_passkey(i as int, credential_id@) && forall|k: int|
                        0 <= k < i ==> !self.is_passkey(k, credential_id@));
                    let j = self.passkey_pos(credential_id@);
                    assert(self.is_passkey(j, credential_id@));
                    if j < i {
                        assert(!self.is_passkey(j, credential_id@));
                    }
                    if j > i {
                        assert(!self.is_passkey(i as int, credential_id@));
                    }
                }
                let owner = self.methods[i].user_id;
                return match self.user_index(owner) {
                    None => Err(AuthError::NotFound),
                    Some(ui) => {
                        if self.users[ui].is_banned {
                            Err(AuthError::AccountBanned)
                        } else {
                            Ok(owner)
                        }
                    },
                };
            }
            i += 1;
        }
        Err(AuthError::NotFound)
    }

    /// Password login: on success either issues session `session_id` or asks
    /// for the user's second factor.
    pub fn login(&mut self, email: &str, candidate: &str, user_agent: Option<String>, session_id: u128, now: i64) -> (r:
        Result<LoginOutcome, AuthError>)
        requires
            old(self).wf(),
        ensures
            final(self).wf(),
            logged_in(*old(self), *final(self), email@, candidate@, session_id, now, r),
    {
        let uid = match self.verify_password(email, candidate) {
            Ok(uid) => uid,
            Err(e) => return Err(e),
        };
        proof {
            let p = self.email_pos(crate::entities::normalized(email@));
            assert(self.users@[p].id == uid);
        }
        let ui = match self.user_index(uid) {
            Some(i) => i,
            None => return Err(AuthError::NotFound),
        };
        match self.users[ui].two_factor {
            Some(m) => Ok(LoginOutcome::SecondFactorRequired(uid, m)),
            None => match self.create_session(uid, user_agent, session_id, now) {
                Ok(sid) => Ok(LoginOutcome::Authenticated(sid)),
                Err(e) => Err(e),
            },
        }
    }

    /// Answers the second factor requested by `login` and, on success, issues
    /// session `session_id`.
    pub fn complete_second_factor(
        &mut self,
        user_id: u64,
        method: TwoFactorMethod,
        code: u32,
        user_agent: Option<String>,
        session_id: u128,
        now: i64,
    ) -> (r: Result<u128, AuthError>)
        requires
            old(self).wf(),
        ensures
            final(self).wf(),
            second_factor_completed(*old(self), *final(self), user_id, method, code, session_id, now, r),
    {
        let ghost s0 = *self;
        match self.verify_two_factor(user_id, method, code, now) {
            Ok(()) => {},
            Err(e) => return Err(e),
        }
        let ghost mid = *self;
        let r = self.create_session(user_id, user_agent, session_id, now);
        proof {
            assert(challenge_answered(s0, mid, user_id, method, code, now, Ok(())));
        }
        r
    }
}

/// The outcome of `login` on `s0`, leaving `s1`.
pub open spec fn logged_in(
    s0: AuthStore,
    s1: AuthStore,
    email: Seq<char>,
    candidate: Seq<char>,
    session_id: u128,
    now: i64,
    r: Result<LoginOutcome, AuthError>,
) -> bool {
    match s0.verify_password_spec(email, candidate) {
        Err(e) => r == Err::<LoginOutcome, AuthError>(e) && s1 == s0,
        Ok(uid) => match s0.users@[s0.user_pos(uid)].two_factor {
            Some(m) => r == Ok::<LoginOutcome, AuthError>(LoginOutcome::SecondFactorRequired(uid, m)) && s1 == s0,
            None => {
                ||| r == Ok::<LoginOutcome, AuthError>(LoginOutcome::Authenticated(session_id)) && session_created(
                    s0,
                    s1,
                    uid,
                    session_id,
                    now,
                    Ok(session_id),
                )
                ||| r == Err::<LoginOutcome, AuthError>(AuthError::Conflict) && s0.has_session(session_id) && s1 == s0
            },
        },
    }
}

/// The outcome of `complete_second_factor` on `s0`, leaving `s1`.
pub open spec fn second_factor_completed(
    s0: AuthStore,
    s1: AuthStore,
    user_id: u64,
    method: TwoFactorMethod,
    code: u32,
    session_id: u128,
    now: i64,
    r: Result<u128, AuthError>,
) -> bool {
    match s0.verify_two_factor_spec(user_id, method, code, now) {
        Err(e) => r == Err::<u128, AuthError>(e) && s1 == s0,
        Ok(()) => exists|mid: AuthStore|
            challenge_answered(s0, mid, user_id, method, code, now, Ok(())) && #[trigger] session_created(
                mid,
                s1,
                user_id,
                session_id,
                now,
                r,
            ),
    }
}

} // verus!
