use vstd::prelude::*;

use crate::entities::{
    normalized, opt_view, AuthError, AuthMethod, AuthMethodRecord, TwoFactorMethod, User, UserRole,
};
use crate::platform::lowercase_ascii;
use crate::store::AuthStore;

verus! {

/// `u` is a newly created account with the given attributes.
pub open spec fn is_new_user(
    u: User,
    id: u64,
    email: Seq<char>,
    password: Option<Seq<char>>,
    role: UserRole,
    now: i64,
) -> bool {
    &&& u.id == id
    &&& u.email@ == normalized(email)
    &&& opt_view(u.password) == password
    &&& u.role == role
    &&& !u.is_banned
    &&& u.two_factor is None
    &&& u.revoked_before == i64::MIN
    &&& u.created_at == now
    &&& u.updated_at == now
}

/// `m` is a newly linked method record with the given attributes.
pub open spec fn is_new_method(
    m: AuthMethodRecord,
    id: u64,
    user_id: u64,
    method: AuthMethod,
    provider: Option<Seq<char>>,
    provider_id: Option<Seq<char>>,
    secret: Option<Seq<char>>,
    now: i64,
) -> bool {
    &&& m.id == id
    &&& m.user_id == user_id
    &&& m.method == method
    &&& opt_view(m.provider) == provider
    &&& opt_view(m.provider_id) == provider_id
    &&& opt_view(m.secret) == secret
    &&& m.created_at == now
    &&& m.updated_at == now
}

pub fn opt_string_eq(a: &Option<String>, b: &Option<String>) -> (r: bool)
    ensures
        r == (opt_view(*a) == opt_view(*b)),
{
    match (a, b) {
        (Some(x), Some(y)) => *x == *y,
        (None, None) => true,
        _ => false,
    }
}

impl AuthStore {
    pub open spec fn has_password_method(&self, user_id: u64) -> bool {
        exists|i: int|
            0 <= i < self.methods@.len() && #[trigger] self.methods@[i].user_id == user_id
                && self.methods@[i].method == AuthMethod::Password
    }

    /// Some record is bound to this provider and provider-assigned id.
    pub open spec fn identity_bound(&self, provider: Option<Seq<char>>, provider_id: Option<Seq<char>>) -> bool {
        provider is Some && provider_id is Some && exists|i: int|
            0 <= i < self.methods@.len() && opt_view(#[trigger] self.methods@[i].provider) == provider
                && opt_view(self.methods@[i].provider_id) == provider_id
    }

    /// Some passkey record carries this credential id.
    pub open spec fn credential_bound(&self, credential_id: Option<Seq<char>>) -> bool {
        credential_id is Some && exists|i: int|
            0 <= i < self.methods@.len() && #[trigger] self.methods@[i].method == AuthMethod::Webauthn
                && opt_view(self.methods@[i].provider_id) == credential_id
    }

    /// What `find_by_email` answers.
    pub open spec fn find_by_email_spec(&self, email: Seq<char>) -> Result<u64, AuthError> {
        if self.has_email(normalized(email)) {
            Ok(self.users@[self.email_pos(normalized(email))].id)
        } else {
            Err(AuthError::NotFound)
        }
    }

    /// The id of the user whose email equals `email`, ignoring ASCII case.
    pub fn find_by_email(&self, email: &str) -> (r: Result<u64, AuthError>)
        requires
            self.wf(),
        ensures
            r == self.find_by_email_spec(email@),
    {
        let key = lowercase_ascii(email);
        match self.email_index(&key) {
            Some(i) => Ok(self.users[i].id),
            None => Err(AuthError::NotFound),
        }
    }

    /// The user with the given id.
    pub fn find_by_id(&self, id: u64) -> (r: Result<&User, AuthError>)
        requires
            self.wf(),
        ensures
            match r {
                Ok(u) => self.has_user(id) && *u == self.users@[self.user_pos(id)],
                Err(e) => !self.has_user(id) && e == AuthError::NotFound,
            },
    {
        match self.user_index(id) {
            Some(i) => Ok(&self.users[i]),
            None => Err(AuthError::NotFound),
        }
    }

    /// Creates an account with no method linked yet; fails `Conflict` when the
    /// email, ignoring ASCII case, is already registered.
    pub fn create_user(&mut self, email: &str, password_hash: Option<String>, role: UserRole, now: i64) -> (r:
        Result<u64, AuthError>)
        requires
            old(self).wf(),
            old(self).next_id < u64::MAX,
        ensures
            final(self).wf(),
            old(self).has_email(normalized(email@)) ==> r == Err::<u64, AuthError>(AuthError::Conflict)
                && *final(self) == *old(self),
            !old(self).has_email(normalized(email@)) ==> {
                &&& r == Ok::<u64, AuthError>(old(self).next_id)
                &&& final(self).next_id == old(self).next_id + 1
                &&& final(self).users@.len() == old(self).users@.len() + 1
                &&& final(self).users@.drop_last() == old(self).users@
                &&& is_new_user(final(self).users@.last(), old(self).next_id, email@, opt_view(password_hash), role, now)
                &&& final(self).methods == old(self).methods
                &&& final(self).tokens == old(self).tokens
                &&& final(self).sessions == old(self).sessions
            },
    {
        let key = lowercase_ascii(email);
        if self.email_index(&key).is_some() {
            return Err(AuthError::Conflict);
        }
        let id = self.next_id;
        let user = User {
            id,
            email: key,
            password: password_hash,
            role,
            is_banned: false,
            two_factor: None,
            revoked_before: i64::MIN,
            created_at: now,
            updated_at: now,
        };
        proof {
            assert(normalized(normalized(email@)) =~= normalized(email@));
        }
        self.users.push(user);
        self.next_id = id + 1;
        proof {
            assert(final(self).users@.drop_last() =~= old(self).users@);
        }
        Ok(id)
    }

    /// What `link_method` answers.
    pub open spec fn link_method_spec(
        &self,
        user_id: u64,
        method: AuthMethod,
        provider: Option<Seq<char>>,
        provider_id: Option<Seq<char>>,
    ) -> Result<u64, AuthError> {
        if !self.has_user(user_id) {
            Err(AuthError::NotFound)
        } else if method == AuthMethod::Password && self.has_password_method(user_id) {
            Err(AuthError::Conflict)
        } else if self.identity_bound(provider, provider_id) {
            Err(AuthError::Conflict)
        } else if method == AuthMethod::Webauthn && self.credential_bound(provider_id) {
            Err(AuthError::Conflict)
        } else {
            Ok(self.next_id)
        }
    }

    /// Binds a proof mechanism to a user; fails `Conflict` on a second password
    /// method, on an external identity that is already bound, or on a passkey
    /// credential id that is already bound.
    pub fn link_method(
        &mut self,
        user_id: u64,
        method: AuthMethod,
        provider: Option<String>,
        provider_id: Option<String>,
        secret: Option<String>,
        now: i64,
    ) -> (r: Result<u64, AuthError>)
        requires
            old(self).wf(),
            old(self).next_id < u64::MAX,
        ensures
            final(self).wf(),
            r == old(self).link_method_spec(user_id, method, opt_view(provider), opt_view(provider_id)),
            r is Err ==> *final(self) == *old(self),
            r is Ok ==> {
                &&& final(self).next_id == old(self).next_id + 1
                &&& final(self).methods@.len() == old(self).methods@.len() + 1
                &&& final(self).methods@.drop_last() == old(self).methods@
                &&& is_new_method(
                    final(self).methods@.last(),
                    old(self).next_id,
                    user_id,
                    method,
                    opt_view(provider),
                    opt_view(provider_id),
                    opt_view(secret),
                    now,
                )
                &&& final(self).users == old(self).users
                &&& final(self).tokens == old(self).tokens
                &&& final(self).sessions == old(self).sessions
            },
    {
        if self.user_index(user_id).is_none() {
            return Err(AuthError::NotFound);
        }
        let external = provider.is_some() && provider_id.is_some();
        let mut i: usize = 0;
        while i < self.methods.len()
            invariant
                self.wf(),
                0 <= i <= self.methods@.len(),
                self.has_user(user_id),
                external == (provider is Some && provider_id is Some),
                forall|k: int|
                    0 <= k < i ==> !(#[trigger] self.methods@[k].user_id == user_id && self.methods@[k].method
                        == AuthMethod::Password && method == AuthMethod::Password),
                forall|k: int|
                    0 <= k < i ==> !(external && opt_view(#[trigger] self.methods@[k].provider) == opt_view(provider)
                        && opt_view(self.methods@[k].provider_id) == opt_view(provider_id)),
                forall|k: int|
                    0 <= k < i ==> !(method == AuthMethod::Webauthn && provider_id is Some
                        && #[trigger] self.methods@[k].method == AuthMethod::Webauthn
                        && opt_view(self.methods@[k].provider_id) == opt_view(provider_id)),
            decreases self.methods@.len() - i,
        {
            let m = &self.methods[i];
            if method == AuthMethod::Password && m.method == AuthMethod::Password && m.user_id == user_id {
                proof {
                    assert(self.methods@[i as int].user_id == user_id);
                }
                return Err(AuthError::Conflict);
            }
            if external && opt_string_eq(&m.provider, &provider) && opt_string_eq(&m.provider_id, &provider_id) {
                proof {
                    assert(opt_view(self.methods@[i as int].provider) == opt_view(provider));
                }
                return Err(AuthError::Conflict);
            }
            if method == AuthMethod::Webauthn && m.method == AuthMethod::Webauthn && provider_id.is_some()
                && opt_string_eq(&m.provider_id, &provider_id) {
                proof {
                    assert(self.methods@[i as int].method == AuthMethod::Webauthn);
                }
                return Err(AuthError::Conflict);
            }
            i += 1;
        }
        let id = self.next_id;
        let record = AuthMethodRecord {
            id,
            user_id,
            method,
            provider,
            provider_id,
            secret,
            created_at: now,
            updated_at: now,
        };
        self.methods.push(record);
        self.next_id = id + 1;
        proof {
            assert(final(self).methods@.drop_last() =~= old(self).methods@);
        }
        Ok(id)
    }

    /// Removes a method record of a user; fails `InvalidState` when it is the
    /// user's last one.
    pub fn unlink_method(&mut self, user_id: u64, method_id: u64) -> (r: Result<(), AuthError>)
        requires
            old(self).wf(),
        ensures
            final(self).wf(),
            r is Err ==> *final(self) == *old(self),
            r == Err::<(), AuthError>(AuthError::NotFound) <==> !(exists|i: int|
                0 <= i < old(self).methods@.len() && #[trigger] old(self).methods@[i].id == method_id
                    && old(self).methods@[i].user_id == user_id),
            r == Err::<(), AuthError>(AuthError::InvalidState) <==> exists|i: int|
                0 <= i < old(self).methods@.len() && #[trigger] old(self).methods@[i].id == method_id
                    && old(self).methods@[i].user_id == user_id && forall|j: int|
                    0 <= j < old(self).methods@.len() && j != i ==> #[trigger] old(self).methods@[j].user_id
                        != user_id,
            r is Ok ==> exists|i: int|
                0 <= i < old(self).methods@.len() && #[trigger] old(self).methods@[i].id == method_id
                    && final(self).methods@ == old(self).methods@.remove(i),
            r is Ok ==> final(self).users == old(self).users && final(self).tokens == old(self).tokens
                && final(self).sessions == old(self).sessions && final(self).next_id == old(self).next_id,
            r is Ok || r == Err::<(), AuthError>(AuthError::NotFound) || r == Err::<(), AuthError>(
                AuthError::InvalidState,
            ),
    {
        let mut pos: Option<usize> = None;
        let mut others: bool = false;
        let mut i: usize = 0;
        while i < self.methods.len()
            invariant
                self.wf(),
                0 <= i <= self.methods@.len(),
                match pos {
                    Some(p) => p < i && self.methods@[p as int].id == method_id && self.methods@[p as int].user_id
                        == user_id,
                    None => forall|k: int|
                        0 <= k < i ==> !(#[trigger] self.methods@[k].id == method_id && self.methods@[k].user_id
                            == user_id),
                },
                others <==> exists|k: int|
                    0 <= k < i && #[trigger] self.methods@[k].user_id == user_id && self.methods@[k].id
                        != method_id,
            decreases self.methods@.len() - i,
        {
            let m = &self.methods[i];
            if m.user_id == user_id {
                if m.id == method_id {
                    pos = Some(i);
                } else {
                    others = true;
                }
            }
            i += 1;
        }
        match pos {
            None => Err(AuthError::NotFound),
            Some(p) => {
                if !others {
                    proof {
                        assert forall|j: int|
                            0 <= j < self.methods@.len() && j != p implies #[trigger] self.methods@[j].user_id
                                != user_id by {
                            if self.methods@[j].user_id == user_id {
                                assert(self.methods@[j].id != method_id);
                            }
                        }
                    }
                    return Err(AuthError::InvalidState);
                }
                proof {
                    let k = choose|k: int|
                        0 <= k < self.methods@.len() && #[trigger] self.methods@[k].user_id == user_id
                            && self.methods@[k].id != method_id;
                    assert(k != p);
                }
                self.methods.remove(p);
                proof {
                    assert forall|i: int, j: int|
                        #![trigger final(self).methods@[i], final(self).methods@[j]]
                        0 <= i < final(self).methods@.len() && 0 <= j < final(self).methods@.len() && i != j
                            implies final(self).methods@[i].id != final(self).methods@[j].id by {
                        let oi = if i < p { i } else { i + 1 };
                        let oj = if j < p { j } else { j + 1 };
                        assert(final(self).methods@[i] == old(self).methods@[oi]);
                        assert(final(self).methods@[j] == old(self).methods@[oj]);
                    }
                }
                Ok(())
            },
        }
    }


    /// Replaces the secret material of a method record of a user.
    pub fn rotate_secret(&mut self, user_id: u64, method_id: u64, secret: Option<String>, now: i64) -> (r: Result<
        (),
        AuthError,
    >)
        requires
            old(self).wf(),
        ensures
            final(self).wf(),
            !(exists|i: int|
                0 <= i < old(self).methods@.len() && #[trigger] old(self).methods@[i].id == method_id
                    && old(self).methods@[i].user_id == user_id) ==> r == Err::<(), AuthError>(AuthError::NotFound)
                && *final(self) == *old(self),
            (exists|i: int|
                0 <= i < old(self).methods@.len() && #[trigger] old(self).methods@[i].id == method_id
                    && old(self).methods@[i].user_id == user_id) ==> r is Ok && exists|i: int|
                0 <= i < old(self).methods@.len() && #[trigger] old(self).methods@[i].id == method_id
                    && final(self).methods@.len() == old(self).methods@.len()
                    && opt_view(final(self).methods@[i].secret) == opt_view(secret)
                    && final(self).methods@[i].updated_at == now
                    && final(self).methods@[i] == (AuthMethodRecord {
                    secret: final(self).methods@[i].secret,
                    updated_at: now,
                    ..old(self).methods@[i]
                })
                    && forall|k: int|
                    0 <= k < old(self).methods@.len() && k != i ==> #[trigger] final(self).methods@[k]
                        == old(self).methods@[k],
            final(self).users == old(self).users,
            final(self).tokens == old(self).tokens,
            final(self).sessions == old(self).sessions,
            final(self).next_id == old(self).next_id,
    {
        let mut i: usize = 0;
        while i < self.methods.len()
            invariant
                self.wf(),
                *self == *old(self),
                0 <= i <= self.methods@.len(),
                forall|k: int|
                    0 <= k < i ==> !(#[trigger] self.methods@[k].id == method_id && self.methods@[k].user_id
                        == user_id),
            decreases self.methods@.len() - i,
        {
            if self.methods[i].id == method_id && self.methods[i].user_id == user_id {
                self.methods[i].secret = secret;
                self.methods[i].updated_at = now;
                proof {
                    assert(final(self).methods@[i as int].id == method_id);
                }
                return Ok(());
            }
            i += 1;
        }
        Err(AuthError::NotFound)
    }
    /// Sets or clears the ban flag of a user.
    pub fn set_banned(&mut self, user_id: u64, banned: bool) -> (r: Result<(), AuthError>)
        requires
            old(self).wf(),
        ensures
            final(self).wf(),
            ban_set(*old(self), *final(self), user_id, banned, r),
    {
        match self.user_index(user_id) {
            None => Err(AuthError::NotFound),
            Some(i) => {
                self.users[i].is_banned = banned;
                Ok(())
            },
        }
    }

    /// Turns the second factor that login requires on or off for a user.
    pub fn set_two_factor(&mut self, user_id: u64, method: Option<TwoFactorMethod>) -> (r: Result<(), AuthError>)
        requires
            old(self).wf(),
        ensures
            final(self).wf(),
            !old(self).has_user(user_id) ==> r == Err::<(), AuthError>(AuthError::NotFound)
                && *final(self) == *old(self),
            old(self).has_user(user_id) ==> {
                let p = old(self).user_pos(user_id);
                &&& r is Ok
                &&& final(self).users@.len() == old(self).users@.len()
                &&& forall|k: int| 0 <= k < old(self).users@.len() && k != p ==> #[trigger] final(self).users@[k] == old(self).users@[k]
                &&& final(self).users@[p] == (User { two_factor: method, ..old(self).users@[p] })
                &&& final(self).methods == old(self).methods
                &&& final(self).tokens == old(self).tokens
                &&& final(self).sessions == old(self).sessions
                &&& final(self).next_id == old(self).next_id
            },
    {
        match self.user_index(user_id) {
            None => Err(AuthError::NotFound),
            Some(i) => {
                self.users[i].two_factor = method;
                Ok(())
            },
        }
    }

    /// Creates an account together with its password method; fails `Conflict`
    /// when the email, ignoring ASCII case, is already registered.
    pub fn register(&mut self, email: &str, password_hash: String, now: i64) -> (r: Result<u64, AuthError>)
        requires
            old(self).wf(),
            old(self).next_id < u64::MAX - 1,
        ensures
            final(self).wf(),
            registered(*old(self), *final(self), email@, password_hash@, now, r),
    {
        let id = match self.create_user(email, Some(password_hash.clone()), UserRole::User, now) {
            Ok(id) => id,
            Err(e) => return Err(e),
        };
        proof {
            assert(self.users@[self.users@.len() - 1].id == id);
            assert forall|k: int| 0 <= k < self.methods@.len() implies #[trigger] self.methods@[k].user_id != id by {}
        }
        let linked = self.link_method(id, AuthMethod::Password, None, None, Some(password_hash), now);
        match linked {
            Ok(_) => Ok(id),
            Err(e) => Err(e),
        }
    }
}

/// The outcome of `set_banned` on `s0`, leaving `s1`.
pub open spec fn ban_set(s0: AuthStore, s1: AuthStore, user_id: u64, banned: bool, r: Result<(), AuthError>) -> bool {
    if !s0.has_user(user_id) {
        r == Err::<(), AuthError>(AuthError::NotFound) && s1 == s0
    } else {
        let p = s0.user_pos(user_id);
        &&& r is Ok
        &&& s1.users@.len() == s0.users@.len()
        &&& forall|k: int| 0 <= k < s0.users@.len() && k != p ==> #[trigger] s1.users@[k] == s0.users@[k]
        &&& s1.users@[p] == (User { is_banned: banned, ..s0.users@[p] })
        &&& s1.methods == s0.methods
        &&& s1.tokens == s0.tokens
        &&& s1.sessions == s0.sessions
        &&& s1.next_id == s0.next_id
    }
}

/// The outcome of `register` on `s0`, leaving `s1`.
pub open spec fn registered(s0: AuthStore, s1: AuthStore, email: Seq<char>, password: Seq<char>, now: i64, r: Result<u64, AuthError>) -> bool {
    if s0.has_email(normalized(email)) {
        r == Err::<u64, AuthError>(AuthError::Conflict) && s1 == s0
    } else {
        &&& r == Ok::<u64, AuthError>(s0.next_id)
        &&& s1.next_id == s0.next_id + 2
        &&& s1.users@.len() == s0.users@.len() + 1
        &&& s1.users@.drop_last() == s0.users@
        &&& is_new_user(s1.users@.last(), s0.next_id, email, Some(password), UserRole::User, now)
        &&& s1.methods@.len() == s0.methods@.len() + 1
        &&& s1.methods@.drop_last() == s0.methods@
        &&& is_new_method(s1.methods@.last(), (s0.next_id + 1) as u64, s0.next_id, AuthMethod::Password, None, None, Some(password), now)
        &&& s1.tokens == s0.tokens
        &&& s1.sessions == s0.sessions
    }
}

} // verus!
