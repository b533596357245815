use vstd::prelude::*;

use crate::entities::{normalized, opt_view, AuthMethod, AuthMethodRecord, Session, TwoFactorToken, User};

verus! {

/// The backing store shared by all components.
pub struct AuthStore {
    pub users: Vec<User>,
    pub methods: Vec<AuthMethodRecord>,
    pub tokens: Vec<TwoFactorToken>,
    pub sessions: Vec<Session>,
    /// Next identifier handed to a user, a method record or a token.
    pub next_id: u64,
}

impl AuthStore {
    pub open spec fn users_wf(&self) -> bool {
        &&& forall|i: int| 0 <= i < self.users@.len() ==> #[trigger] self.users@[i].id < self.next_id
        &&& forall|i: int| 0 <= i < self.users@.len() ==> normalized(#[trigger] self.users@[i].email@) == self.users@[i].email@
        &&& forall|i: int, j: int|
            #![trigger self.users@[i], self.users@[j]]
            0 <= i < self.users@.len() && 0 <= j < self.users@.len() && i != j
                ==> self.users@[i].id != self.users@[j].id
                    && self.users@[i].email@ != self.users@[j].email@
    }

    pub open spec fn methods_wf(&self) -> bool {
        &&& forall|i: int| 0 <= i < self.methods@.len() ==> #[trigger] self.methods@[i].id < self.next_id
        &&& forall|i: int| 0 <= i < self.methods@.len() ==> #[trigger] self.methods@[i].user_id < self.next_id
        &&& forall|i: int, j: int|
            #![trigger self.methods@[i], self.methods@[j]]
            0 <= i < self.methods@.len() && 0 <= j < self.methods@.len() && i != j
                ==> self.methods@[i].id != self.methods@[j].id
                    && !(self.methods@[i].method == AuthMethod::Password
                        && self.methods@[j].method == AuthMethod::Password
                        && self.methods@[i].user_id == self.methods@[j].user_id)
                    && !same_external_identity(self.methods@[i], self.methods@[j])
                    && !same_passkey(self.methods@[i], self.methods@[j])
    }

    pub open spec fn tokens_wf(&self) -> bool {
        &&& forall|i: int| 0 <= i < self.tokens@.len() ==> #[trigger] self.tokens@[i].id < self.next_id
        &&& forall|i: int| 0 <= i < self.tokens@.len() ==> #[trigger] self.tokens@[i].token < 1_000_000
        &&& forall|i: int, j: int|
            #![trigger self.tokens@[i], self.tokens@[j]]
            0 <= i < self.tokens@.len() && 0 <= j < self.tokens@.len() && i != j
                ==> self.tokens@[i].id != self.tokens@[j].id
                    && !(!self.tokens@[i].used && !self.tokens@[j].used
                        && self.tokens@[i].user_id == self.tokens@[j].user_id
                        && self.tokens@[i].method == self.tokens@[j].method)
    }

    pub open spec fn sessions_wf(&self) -> bool {
        forall|i: int, j: int|
            #![trigger self.sessions@[i], self.sessions@[j]]
            0 <= i < self.sessions@.len() && 0 <= j < self.sessions@.len() && i != j
                ==> self.sessions@[i].id != self.sessions@[j].id
    }

    /// Identifiers are unique, stored emails are normalized and unique, a user
    /// holds at most one password method, an external identity and a passkey
    /// credential id are each bound once, and at most one unused token is
    /// outstanding per user and channel.
    pub open spec fn wf(&self) -> bool {
        &&& self.users_wf()
        &&& self.methods_wf()
        &&& self.tokens_wf()
        &&& self.sessions_wf()
    }

    pub open spec fn has_user(&self, id: u64) -> bool {
        exists|i: int| 0 <= i < self.users@.len() && #[trigger] self.users@[i].id == id
    }

    pub open spec fn user_pos(&self, id: u64) -> int {
        choose|i: int| 0 <= i < self.users@.len() && #[trigger] self.users@[i].id == id
    }

    pub open spec fn has_email(&self, e: Seq<char>) -> bool {
        exists|i: int| 0 <= i < self.users@.len() && #[trigger] self.users@[i].email@ == e
    }

    pub open spec fn email_pos(&self, e: Seq<char>) -> int {
        choose|i: int| 0 <= i < self.users@.len() && #[trigger] self.users@[i].email@ == e
    }

    pub open spec fn has_session(&self, sid: u128) -> bool {
        exists|i: int| 0 <= i < self.sessions@.len() && #[trigger] self.sessions@[i].id == sid
    }

    pub open spec fn session_pos(&self, sid: u128) -> int {
        choose|i: int| 0 <= i < self.sessions@.len() && #[trigger] self.sessions@[i].id == sid
    }

    pub fn new() -> (r: AuthStore)
        ensures
            r.wf(),
            r.next_id == 1,
            r.users@.len() == 0,
            r.methods@.len() == 0,
            r.tokens@.len() == 0,
            r.sessions@.len() == 0,
    {
        AuthStore { users: Vec::new(), methods: Vec::new(), tokens: Vec::new(), sessions: Vec::new(), next_id: 1 }
    }

    /// Position of the user with the given id.
    pub fn user_index(&self, id: u64) -> (r: Option<usize>)
        requires
            self.wf(),
        ensures
            match r {
                Some(i) => self.has_user(id) && i == self.user_pos(id),
                None => !self.has_user(id),
            },
    {
        let mut i: usize = 0;
        while i < self.users.len()
            invariant
                self.wf(),
                0 <= i <= self.users@.len(),
                forall|k: int| 0 <= k < i ==> #[trigger] self.users@[k].id != id,
            decreases self.users@.len() - i,
        {
            if self.users[i].id == id {
                proof {
                    assert(self.has_user(id) ==> self.users@[self.user_pos(id)].id == id);
                }
                return Some(i);
            }
            i += 1;
        }
        None
    }

    /// Position of the user whose stored email is `e`.
    pub fn email_index(&self, e: &String) -> (r: Option<usize>)
        requires
            self.wf(),
        ensures
            match r {
                Some(i) => self.has_email(e@) && i == self.email_pos(e@),
                None => !self.has_email(e@),
            },
    {
        let mut i: usize = 0;
        while i < self.users.len()
            invariant
                self.wf(),
                0 <= i <= self.users@.len(),
                forall|k: int| 0 <= k < i ==> #[trigger] self.users@[k].email@ != e@,
            decreases self.users@.len() - i,
        {
            if self.users[i].email == *e {
                proof {
                    assert(self.users@[i as int].email@ == e@);
                    assert(self.has_email(e@) ==> self.users@[self.email_pos(e@)].email@ == e@);
                }
                return Some(i);
            }
            i += 1;
        }
        None
    }

    /// Position of the session with the given id.
    pub fn session_index(&self, sid: u128) -> (r: Option<usize>)
        requires
            self.wf(),
        ensures
            match r {
                Some(i) => self.has_session(sid) && i == self.session_pos(sid),
                None => !self.has_session(sid),
            },
    {
        let mut i: usize = 0;
        while i < self.sessions.len()
            invariant
                self.wf(),
                0 <= i <= self.sessions@.len(),
                forall|k: int| 0 <= k < i ==> #[trigger] self.sessions@[k].id != sid,
            decreases self.sessions@.len() - i,
        {
            if self.sessions[i].id == sid {
                proof {
                    assert(self.has_session(sid) ==> self.sessions@[self.session_pos(sid)].id == sid);
                }
                return Some(i);
            }
            i += 1;
        }
        None
    }
}

/// Both records are passkeys with the same credential id.
pub open spec fn same_passkey(a: AuthMethodRecord, b: AuthMethodRecord) -> bool {
    a.method == AuthMethod::Webauthn && b.method == AuthMethod::Webauthn && a.provider_id is Some
        && opt_view(a.provider_id) == opt_view(b.provider_id)
}

/// Both records name the same provider and the same provider-assigned id.
pub open spec fn same_external_identity(a: AuthMethodRecord, b: AuthMethodRecord) -> bool {
    a.provider is Some && a.provider_id is Some && opt_view(a.provider) == opt_view(b.provider)
        && opt_view(a.provider_id) == opt_view(b.provider_id)
}

} // verus!
