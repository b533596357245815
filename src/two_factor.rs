use vstd::prelude::*;

use crate::entities::{expiry, expiry_after, AuthError, TwoFactorMethod, TwoFactorToken};
use crate::store::AuthStore;

verus! {

/// Number of distinct one-time codes; codes are below it.
pub const CODE_SPACE: u32 = 1_000_000;

/// Seconds for which a challenge can be answered.
pub const CHALLENGE_WINDOW: i64 = 300;

/// The code drawn from a random value.
pub open spec fn code_of(random: u128) -> u32 {
    (random % (CODE_SPACE as u128)) as u32
}

/// `t1` is `t0` made unusable when a challenge for `user_id` on `method` is issued.
pub open spec fn superseded(t0: TwoFactorToken, user_id: u64, method: TwoFactorMethod) -> TwoFactorToken {
    if t0.user_id == user_id && t0.method == method {
        TwoFactorToken { used: true, ..t0 }
    } else {
        t0
    }
}

impl AuthStore {
    pub open spec fn has_outstanding(&self, user_id: u64, method: TwoFactorMethod) -> bool {
        exists|i: int|
            0 <= i < self.tokens@.len() && #[trigger] self.tokens@[i].user_id == user_id
                && self.tokens@[i].method == method && !self.tokens@[i].used
    }

    pub open spec fn outstanding_pos(&self, user_id: u64, method: TwoFactorMethod) -> int {
        choose|i: int|
            0 <= i < self.tokens@.len() && #[trigger] self.tokens@[i].user_id == user_id
                && self.tokens@[i].method == method && !self.tokens@[i].used
    }

    /// Issues a challenge whose code is drawn from `random`; any earlier unused
    /// challenge of the same user and channel can no longer be answered.
    pub fn initiate_two_factor(&mut self, user_id: u64, method: TwoFactorMethod, random: u128, now: i64) -> (r:
        Result<u32, AuthError>)
        requires
            old(self).wf(),
            old(self).next_id < u64::MAX,
        ensures
            final(self).wf(),
            challenge_issued(*old(self), *final(self), user_id, method, random, now, r),
    {
        if self.user_index(user_id).is_none() {
            return Err(AuthError::NotFound);
        }
        let ghost t0 = self.tokens@;
        let mut i: usize = 0;
        while i < self.tokens.len()
            invariant
                self.wf(),
                self.users == old(self).users,
                self.methods == old(self).methods,
                self.sessions == old(self).sessions,
                self.next_id == old(self).next_id,
                t0 == old(self).tokens@,
                0 <= i <= self.tokens@.len(),
                self.tokens@.len() == t0.len(),
                forall|k: int| 0 <= k < i ==> #[trigger] self.tokens@[k] == superseded(t0[k], user_id, method),
                forall|k: int| i <= k < t0.len() ==> #[trigger] self.tokens@[k] == t0[k],
            decreases self.tokens@.len() - i,
        {
            if self.tokens[i].user_id == user_id && self.tokens[i].method == method {
                self.tokens[i].used = true;
            }
            i += 1;
        }
        let code = (random % (CODE_SPACE as u128)) as u32;
        let id = self.next_id;
        let token = TwoFactorToken {
            id,
            user_id,
            token: code,
            method,
            expires_at: expiry_after(now, CHALLENGE_WINDOW),
            used: false,
            created_at: now,
        };
        self.tokens.push(token);
        self.next_id = id + 1;
        Ok(code)
    }

    /// What `verify_two_factor` answers.
    pub open spec fn verify_two_factor_spec(
        &self,
        user_id: u64,
        method: TwoFactorMethod,
        candidate: u32,
        now: i64,
    ) -> Result<(), AuthError> {
        if !self.has_outstanding(user_id, method) {
            Err(AuthError::InvalidToken)
        } else {
            let t = self.tokens@[self.outstanding_pos(user_id, method)];
            if now >= t.expires_at {
                Err(AuthError::Expired)
            } else if t.token != candidate {
                Err(AuthError::InvalidToken)
            } else {
                Ok(())
            }
        }
    }

    /// Answers the outstanding challenge of a user on a channel; a code is
    /// accepted once.
    pub fn verify_two_factor(&mut self, user_id: u64, method: TwoFactorMethod, candidate: u32, now: i64) -> (r:
        Result<(), AuthError>)
        requires
            old(self).wf(),
        ensures
            final(self).wf(),
            challenge_answered(*old(self), *final(self), user_id, method, candidate, now, r),
    {
        let mut i: usize = 0;
        while i < self.tokens.len()
            invariant
                self.wf(),
                *self == *old(self),
                0 <= i <= self.tokens@.len(),
                forall|k: int|
                    0 <= k < i ==> !(#[trigger] self.tokens@[k].user_id == user_id && self.tokens@[k].method
                        == method && !self.tokens@[k].used),
            decreases self.tokens@.len() - i,
        {
            let t = self.tokens[i];
            if t.user_id == user_id && t.method == method && !t.used {
                proof {
                    assert(self.tokens@[i as int].user_id == user_id);
                    let j = self.outstanding_pos(user_id, method);
                    assert(self.tokens@[j].user_id == user_id);
                }
                if now >= t.expires_at {
                    return Err(AuthError::Expired);
                }
                if t.token != candidate {
                    return Err(AuthError::InvalidToken);
                }
                self.tokens[i].used = true;
                return Ok(());
            }
            i += 1;
        }
        Err(AuthError::InvalidToken)
    }
}

/// The outcome of `initiate_two_factor` on `s0`, leaving `s1`.
pub open spec fn challenge_issued(
    s0: AuthStore,
    s1: AuthStore,
    user_id: u64,
    method: TwoFactorMethod,
    random: u128,
    now: i64,
    r: Result<u32, AuthError>,
) -> bool {
    if !s0.has_user(user_id) {
        r == Err::<u32, AuthError>(AuthError::NotFound) && s1 == s0
    } else {
        &&& r == Ok::<u32, AuthError>(code_of(random))
        &&& s1.next_id == s0.next_id + 1
        &&& s1.tokens@.len() == s0.tokens@.len() + 1
        &&& forall|k: int| 0 <= k < s0.tokens@.len() ==> #[trigger] s1.tokens@[k] == superseded(s0.tokens@[k], user_id, method)
        &&& s1.tokens@.last() == (TwoFactorToken {
            id: s0.next_id,
            user_id,
            token: code_of(random),
            method,
            expires_at: expiry(now, CHALLENGE_WINDOW),
            used: false,
            created_at: now,
        })
        &&& s1.users == s0.users
        &&& s1.methods == s0.methods
        &&& s1.sessions == s0.sessions
    }
}

/// The outcome of `verify_two_factor` on `s0`, leaving `s1`.
pub open spec fn challenge_answered(
    s0: AuthStore,
    s1: AuthStore,
    user_id: u64,
    method: TwoFactorMethod,
    candidate: u32,
    now: i64,
    r: Result<(), AuthError>,
) -> bool {
    &&& r == s0.verify_two_factor_spec(user_id, method, candidate, now)
    &&& r is Err ==> s1 == s0
    &&& r is Ok ==> {
        let p = s0.outstanding_pos(user_id, method);
        &&& s1.tokens@ == s0.tokens@.update(p, TwoFactorToken { used: true, ..s0.tokens@[p] })
        &&& s1.users == s0.users
        &&& s1.methods == s0.methods
        &&& s1.sessions == s0.sessions
        &&& s1.next_id == s0.next_id
    }
}

} // verus!
