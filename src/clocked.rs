use vstd::prelude::*;

use crate::credentials::oauth_resolved;
use crate::directory::registered;
use crate::entities::{AuthError, TwoFactorMethod};
use crate::orchestrator::{logged_in, second_factor_completed, LoginOutcome};
use crate::platform::{current_time, random_u128};
use crate::sessions::{all_revoked, session_created, session_refreshed};
use crate::store::AuthStore;
use crate::two_factor::challenge_issued;

verus! {

impl AuthStore {
    /// `register` at the current time.
    pub fn register_now(&mut self, email: &str, password_hash: String) -> (r: Result<u64, AuthError>)
        requires
            old(self).wf(),
            old(self).next_id < u64::MAX - 1,
        ensures
            final(self).wf(),
            exists|now: i64| #[trigger] registered(*old(self), *final(self), email@, password_hash@, now, r),
    {
        let now = current_time();
        let ghost pw = password_hash@;
        let r = self.register(email, password_hash, now);
        proof {
            assert(registered(*old(self), *final(self), email@, pw, now, r));
        }
        r
    }

    /// `verify_oauth` at the current time.
    pub fn verify_oauth_now(&mut self, provider: &str, provider_id: &str, verified_email: &str) -> (r: Result<
        u64,
        AuthError,
    >)
        requires
            old(self).wf(),
            old(self).next_id < u64::MAX - 1,
        ensures
            final(self).wf(),
            exists|now: i64|
                #[trigger] oauth_resolved(*old(self), *final(self), provider@, provider_id@, verified_email@, now, r),
    {
        let now = current_time();
        let r = self.verify_oauth(provider, provider_id, verified_email, now);
        proof {
            assert(oauth_resolved(*old(self), *final(self), provider@, provider_id@, verified_email@, now, r));
        }
        r
    }

    /// `login` at the current time, with a random session identifier.
    pub fn login_now(&mut self, email: &str, candidate: &str, user_agent: Option<String>) -> (r: Result<
        LoginOutcome,
        AuthError,
    >)
        requires
            old(self).wf(),
        ensures
            final(self).wf(),
            exists|now: i64, session_id: u128|
                #[trigger] logged_in(*old(self), *final(self), email@, candidate@, session_id, now, r),
    {
        let now = current_time();
        let session_id = random_u128();
        let r = self.login(email, candidate, user_agent, session_id, now);
        proof {
            assert(logged_in(*old(self), *final(self), email@, candidate@, session_id, now, r));
        }
        r
    }

    /// `complete_second_factor` at the current time, with a random session
    /// identifier.
    pub fn complete_second_factor_now(
        &mut self,
        user_id: u64,
        method: TwoFactorMethod,
        code: u32,
        user_agent: Option<String>,
    ) -> (r: Result<u128, AuthError>)
        requires
            old(self).wf(),
        ensures
            final(self).wf(),
            exists|now: i64, session_id: u128|
                #[trigger] second_factor_completed(*old(self), *final(self), user_id, method, code, session_id, now, r),
    {
        let now = current_time();
        let session_id = random_u128();
        let r = self.complete_second_factor(user_id, method, code, user_agent, session_id, now);
        proof {
            assert(second_factor_completed(*old(self), *final(self), user_id, method, code, session_id, now, r));
        }
        r
    }

    /// `initiate_two_factor` at the current time, with a random code.
    pub fn initiate_two_factor_now(&mut self, user_id: u64, method: TwoFactorMethod) -> (r: Result<u32, AuthError>)
        requires
            old(self).wf(),
            old(self).next_id < u64::MAX,
        ensures
            final(self).wf(),
            exists|random: u128, now: i64|
                #[trigger] challenge_issued(*old(self), *final(self), user_id, method, random, now, r),
    {
        let now = current_time();
        let random = random_u128();
        let r = self.initiate_two_factor(user_id, method, random, now);
        proof {
            assert(challenge_issued(*old(self), *final(self), user_id, method, random, now, r));
        }
        r
    }

    /// `create_session` at the current time, with a random identifier.
    pub fn create_session_now(&mut self, user_id: u64, user_agent: Option<String>) -> (r: Result<u128, AuthError>)
        requires
            old(self).wf(),
        ensures
            final(self).wf(),
            exists|session_id: u128, now: i64|
                #[trigger] session_created(*old(self), *final(self), user_id, session_id, now, r),
    {
        let now = current_time();
        let session_id = random_u128();
        let r = self.create_session(user_id, user_agent, session_id, now);
        proof {
            assert(session_created(*old(self), *final(self), user_id, session_id, now, r));
        }
        r
    }

    /// `validate` at the current time.
    pub fn validate_now(&self, session_id: u128) -> (r: Result<u64, AuthError>)
        requires
            self.wf(),
        ensures
            exists|now: i64| r == #[trigger] self.validate_spec(session_id, now),
    {
        let now = current_time();
        self.validate(session_id, now)
    }

    /// `refresh` at the current time, with a random new identifier.
    pub fn refresh_now(&mut self, session_id: u128) -> (r: Result<u128, AuthError>)
        requires
            old(self).wf(),
        ensures
            final(self).wf(),
            exists|new_id: u128, now: i64|
                #[trigger] session_refreshed(*old(self), *final(self), session_id, new_id, now, r),
    {
        let now = current_time();
        let new_id = random_u128();
        let r = self.refresh(session_id, new_id, now);
        proof {
            assert(session_refreshed(*old(self), *final(self), session_id, new_id, now, r));
        }
        r
    }

    /// `revoke_all_for_user` at the current time.
    pub fn revoke_all_for_user_now(&mut self, user_id: u64) -> (r: Result<(), AuthError>)
        requires
            old(self).wf(),
        ensures
            final(self).wf(),
            r is Ok,
            exists|now: i64| #[trigger] all_revoked(*old(self), *final(self), user_id, now),
    {
        let now = current_time();
        let r = self.revoke_all_for_user(user_id, now);
        proof {
            assert(all_revoked(*old(self), *final(self), user_id, now));
        }
        r
    }
}

} // verus!
