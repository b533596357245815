use vstd::prelude::*;

use crate::entities::{expiry, expiry_after, AuthError, Session, User};
use crate::store::AuthStore;

verus! {

/// Seconds for which a session stays valid after it is issued.
pub const SESSION_LIFETIME: i64 = 604_800;

/// The sessions of `ss` that do not belong to `user_id`, in order.
pub open spec fn sessions_without(ss: Seq<Session>, user_id: u64) -> Seq<Session>
    decreases ss.len(),
{
    if ss.len() == 0 {
        Seq::<Session>::empty()
    } else {
        let rest = sessions_without(ss.drop_last(), user_id);
        if ss.last().user_id == user_id {
            rest
        } else {
            rest.push(ss.last())
        }
    }
}

/// Every session kept by `sessions_without` is one of `ss` and not owned by `user_id`.
pub proof fn lemma_sessions_without(ss: Seq<Session>, user_id: u64)
    ensures
        forall|k: int|
            #![trigger sessions_without(ss, user_id)[k]]
            0 <= k < sessions_without(ss, user_id).len() ==> sessions_without(ss, user_id)[k].user_id
                != user_id && ss.contains(sessions_without(ss, user_id)[k]),
    decreases ss.len(),
{
    if ss.len() > 0 {
        lemma_sessions_without(ss.drop_last(), user_id);
        let rest = sessions_without(ss.drop_last(), user_id);
        assert forall|k: int| 0 <= k < rest.len() implies ss.contains(#[trigger] rest[k]) by {
            assert(ss.drop_last().contains(rest[k]));
            let j = choose|j: int| 0 <= j < ss.drop_last().len() && ss.drop_last()[j] == rest[k];
            assert(ss[j] == rest[k]);
        }
        assert(ss[ss.len() - 1] == ss.last());
    }
}

/// Dropping sessions keeps identifiers pairwise distinct.
pub proof fn lemma_sessions_without_unique(ss: Seq<Session>, user_id: u64)
    requires
        forall|i: int, j: int|
            #![trigger ss[i], ss[j]]
            0 <= i < ss.len() && 0 <= j < ss.len() && i != j ==> ss[i].id != ss[j].id,
    ensures
        forall|i: int, j: int|
            #![trigger sessions_without(ss, user_id)[i], sessions_without(ss, user_id)[j]]
            0 <= i < sessions_without(ss, user_id).len() && 0 <= j < sessions_without(ss, user_id).len() && i
                != j ==> sessions_without(ss, user_id)[i].id != sessions_without(ss, user_id)[j].id,
    decreases ss.len(),
{
    if ss.len() > 0 {
        let d = ss.drop_last();
        assert forall|i: int, j: int|
            #![trigger d[i], d[j]]
            0 <= i < d.len() && 0 <= j < d.len() && i != j implies d[i].id != d[j].id by {
            assert(d[i] == ss[i] && d[j] == ss[j]);
        }
        lemma_sessions_without_unique(d, user_id);
        lemma_sessions_without(d, user_id);
        let rest = sessions_without(d, user_id);
        assert forall|k: int| 0 <= k < rest.len() implies #[trigger] rest[k].id != ss.last().id by {
            assert(d.contains(rest[k]));
            let j = choose|j: int| 0 <= j < d.len() && d[j] == rest[k];
            assert(ss[j] == d[j]);
            assert(ss[ss.len() - 1] == ss.last());
        }
        let out = sessions_without(ss, user_id);
        if ss.last().user_id != user_id {
            assert forall|i: int, j: int|
                #![trigger out[i], out[j]]
                0 <= i < out.len() && 0 <= j < out.len() && i != j implies out[i].id != out[j].id by {
                if i < rest.len() && j < rest.len() {
                    assert(out[i] == rest[i] && out[j] == rest[j]);
                }
            }
        }
    }
}

impl AuthStore {
    /// What `validate` answers.
    pub open spec fn validate_spec(&self, session_id: u128, now: i64) -> Result<u64, AuthError> {
        if !self.has_session(session_id) {
            Err(AuthError::NotFound)
        } else {
            let s = self.sessions@[self.session_pos(session_id)];
            if now >= s.expires_at {
                Err(AuthError::Expired)
            } else if !self.has_user(s.user_id) {
                Err(AuthError::NotFound)
            } else {
                let u = self.users@[self.user_pos(s.user_id)];
                if u.is_banned {
                    Err(AuthError::AccountBanned)
                } else if s.created_at < u.revoked_before {
                    Err(AuthError::Revoked)
                } else {
                    Ok(u.id)
                }
            }
        }
    }

    /// Issues a session with identifier `session_id` for a user.
    pub fn create_session(&mut self, user_id: u64, user_agent: Option<String>, session_id: u128, now: i64) -> (r:
        Result<u128, AuthError>)
        requires
            old(self).wf(),
        ensures
            final(self).wf(),
            session_created(*old(self), *final(self), user_id, session_id, now, r),
            r is Ok ==> final(self).sessions@.last().user_agent == user_agent,
    {
        if self.user_index(user_id).is_none() {
            return Err(AuthError::NotFound);
        }
        if self.session_index(session_id).is_some() {
            return Err(AuthError::Conflict);
        }
        let session = Session {
            id: session_id,
            user_id,
            user_agent,
            expires_at: expiry_after(now, SESSION_LIFETIME),
            created_at: now,
            updated_at: now,
        };
        self.sessions.push(session);
        proof {
            assert(final(self).sessions@.drop_last() =~= old(self).sessions@);
        }
        Ok(session_id)
    }

    /// The user that a session acts for, if it is unexpired, unrevoked and its
    /// owner is not banned.
    pub fn validate(&self, session_id: u128, now: i64) -> (r: Result<u64, AuthError>)
        requires
            self.wf(),
        ensures
            r == self.validate_spec(session_id, now),
    {
        let si = match self.session_index(session_id) {
            Some(i) => i,
            None => return Err(AuthError::NotFound),
        };
        let s = &self.sessions[si];
        if now >= s.expires_at {
            return Err(AuthError::Expired);
        }
        let ui = match self.user_index(s.user_id) {
            Some(i) => i,
            None => return Err(AuthError::NotFound),
        };
        let u = &self.users[ui];
        if u.is_banned {
            Err(AuthError::AccountBanned)
        } else if s.created_at < u.revoked_before {
            Err(AuthError::Revoked)
        } else {
            Ok(u.id)
        }
    }

    /// Replaces a valid session by one with identifier `new_id`; the old
    /// identifier stops working at once.
    pub fn refresh(&mut self, session_id: u128, new_id: u128, now: i64) -> (r: Result<u128, AuthError>)
        requires
            old(self).wf(),
        ensures
            final(self).wf(),
            session_refreshed(*old(self), *final(self), session_id, new_id, now, r),
    {
        match self.validate(session_id, now) {
            Ok(_) => {},
            Err(e) => return Err(e),
        }
        if new_id == session_id || self.session_index(new_id).is_some() {
            return Err(AuthError::Conflict);
        }
        let si = match self.session_index(session_id) {
            Some(i) => i,
            None => return Err(AuthError::NotFound),
        };
        let prior = self.sessions.remove(si);
        let ghost removed = self.sessions@;
        let session = Session {
            id: new_id,
            user_id: prior.user_id,
            user_agent: prior.user_agent,
            expires_at: expiry_after(now, SESSION_LIFETIME),
            created_at: now,
            updated_at: now,
        };
        self.sessions.push(session);
        proof {
            assert forall|k: int| 0 <= k < removed.len() implies #[trigger] removed[k].id != new_id by {
                let ok = if k < si { k } else { k + 1 };
                assert(removed[k] == old(self).sessions@[ok]);
            }
            assert forall|i: int, j: int|
                #![trigger final(self).sessions@[i], final(self).sessions@[j]]
                0 <= i < final(self).sessions@.len() && 0 <= j < final(self).sessions@.len() && i != j
                    implies final(self).sessions@[i].id != final(self).sessions@[j].id by {
                if i < removed.len() && j < removed.len() {
                    let oi = if i < si { i } else { i + 1 };
                    let oj = if j < si { j } else { j + 1 };
                    assert(removed[i] == old(self).sessions@[oi]);
                    assert(removed[j] == old(self).sessions@[oj]);
                }
            }
            assert(final(self).sessions@.drop_last() =~= removed);
        }
        Ok(new_id)
    }

    /// Ends a session; an unknown identifier is not an error.
    pub fn revoke(&mut self, session_id: u128) -> (r: Result<(), AuthError>)
        requires
            old(self).wf(),
        ensures
            final(self).wf(),
            r is Ok,
            session_revoked(*old(self), *final(self), session_id),
    {
        match self.session_index(session_id) {
            None => Ok(()),
            Some(si) => {
                self.sessions.remove(si);
                proof {
                    assert forall|i: int, j: int|
                        #![trigger final(self).sessions@[i], final(self).sessions@[j]]
                        0 <= i < final(self).sessions@.len() && 0 <= j < final(self).sessions@.len() && i != j
                            implies final(self).sessions@[i].id != final(self).sessions@[j].id by {
                        let oi = if i < si { i } else { i + 1 };
                        let oj = if j < si { j } else { j + 1 };
                        assert(final(self).sessions@[i] == old(self).sessions@[oi]);
                        assert(final(self).sessions@[j] == old(self).sessions@[oj]);
                    }
                }
                Ok(())
            },
        }
    }

    /// Ends every session of a user and rejects any session of theirs created
    /// before `now`.
    pub fn revoke_all_for_user(&mut self, user_id: u64, now: i64) -> (r: Result<(), AuthError>)
        requires
            old(self).wf(),
        ensures
            final(self).wf(),
            r is Ok,
            all_revoked(*old(self), *final(self), user_id, now),
    {
        match self.user_index(user_id) {
            None => {},
            Some(ui) => {
                if self.users[ui].revoked_before < now {
                    self.users[ui].revoked_before = now;
                }
            },
        }
        let mut kept: Vec<Session> = Vec::new();
        let mut rest: Vec<Session> = Vec::new();
        core::mem::swap(&mut rest, &mut self.sessions);
        let ghost all = rest@;
        let total = rest.len();
        proof {
            assert(all.len() == total);
            assert(all.skip(0) =~= all);
            assert(all.take(0) =~= Seq::<Session>::empty());
        }
        let mut i: usize = 0;
        while rest.len() > 0
            invariant
                i + rest@.len() == all.len(),
                all.len() <= usize::MAX,
                rest@ == all.skip(i as int),
                kept@ == sessions_without(all.take(i as int), user_id),
            decreases rest@.len(),
        {
            let s = rest.remove(0);
            proof {
                assert(s == all[i as int]);
                assert(all.take(i as int + 1).drop_last() =~= all.take(i as int));
                assert(all.take(i as int + 1).last() == all[i as int]);
                assert(rest@ =~= all.skip(i as int + 1));
            }
            if s.user_id != user_id {
                kept.push(s);
            }
            i += 1;
        }
        proof {
            assert(all.take(i as int) =~= all);
            lemma_sessions_without_unique(all, user_id);
        }
        self.sessions = kept;
        Ok(())
    }
}

/// The outcome of `create_session` on `s0`, leaving `s1`.
pub open spec fn session_created(s0: AuthStore, s1: AuthStore, user_id: u64, session_id: u128, now: i64, r: Result<u128, AuthError>) -> bool {
    if !s0.has_user(user_id) {
        r == Err::<u128, AuthError>(AuthError::NotFound) && s1 == s0
    } else if s0.has_session(session_id) {
        r == Err::<u128, AuthError>(AuthError::Conflict) && s1 == s0
    } else {
        let s = s1.sessions@.last();
        &&& r == Ok::<u128, AuthError>(session_id)
        &&& s1.sessions@.len() == s0.sessions@.len() + 1
        &&& s1.sessions@.drop_last() == s0.sessions@
        &&& s.id == session_id && s.user_id == user_id
        &&& s.expires_at == expiry(now, SESSION_LIFETIME)
        &&& s.created_at == now && s.updated_at == now
        &&& s1.users == s0.users && s1.methods == s0.methods && s1.tokens == s0.tokens && s1.next_id == s0.next_id
    }
}

/// The outcome of `refresh` on `s0`, leaving `s1`.
pub open spec fn session_refreshed(s0: AuthStore, s1: AuthStore, session_id: u128, new_id: u128, now: i64, r: Result<u128, AuthError>) -> bool {
    if s0.validate_spec(session_id, now) is Err {
        r == Err::<u128, AuthError>(s0.validate_spec(session_id, now)->Err_0) && s1 == s0
    } else if new_id == session_id || s0.has_session(new_id) {
        r == Err::<u128, AuthError>(AuthError::Conflict) && s1 == s0
    } else {
        let p = s0.session_pos(session_id);
        let prior = s0.sessions@[p];
        let s = s1.sessions@.last();
        &&& r == Ok::<u128, AuthError>(new_id)
        &&& s1.sessions@.len() == s0.sessions@.len()
        &&& s1.sessions@.drop_last() == s0.sessions@.remove(p)
        &&& s == (Session {
            id: new_id,
            expires_at: expiry(now, SESSION_LIFETIME),
            created_at: now,
            updated_at: now,
            ..prior
        })
        &&& s1.users == s0.users && s1.methods == s0.methods && s1.tokens == s0.tokens && s1.next_id == s0.next_id
    }
}

/// The outcome of `revoke` on `s0`, leaving `s1`.
pub open spec fn session_revoked(s0: AuthStore, s1: AuthStore, session_id: u128) -> bool {
    &&& s0.has_session(session_id) ==> s1.sessions@ == s0.sessions@.remove(s0.session_pos(session_id))
    &&& !s0.has_session(session_id) ==> s1.sessions == s0.sessions
    &&& s1.users == s0.users && s1.methods == s0.methods && s1.tokens == s0.tokens && s1.next_id == s0.next_id
}

/// The outcome of `revoke_all_for_user` on `s0`, leaving `s1`.
pub open spec fn all_revoked(s0: AuthStore, s1: AuthStore, user_id: u64, now: i64) -> bool {
    &&& s1.sessions@ == sessions_without(s0.sessions@, user_id)
    &&& s1.users@.len() == s0.users@.len()
    &&& forall|k: int| 0 <= k < s0.users@.len() && !(s0.has_user(user_id) && k == s0.user_pos(user_id))
        ==> #[trigger] s1.users@[k] == s0.users@[k]
    &&& s0.has_user(user_id) ==> {
        let p = s0.user_pos(user_id);
        let w = if s0.users@[p].revoked_before < now { now } else { s0.users@[p].revoked_before };
        s1.users@[p] == (User { revoked_before: w, ..s0.users@[p] })
    }
    &&& s1.methods == s0.methods && s1.tokens == s0.tokens && s1.next_id == s0.next_id
}

} // verus!
