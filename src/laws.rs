use vstd::prelude::*;

use crate::credentials::oauth_resolved;
use crate::directory::{ban_set, registered};
use crate::entities::{normalized, opt_view, AuthError, AuthMethod, TwoFactorMethod};
use crate::sessions::{all_revoked, lemma_sessions_without, session_refreshed, session_revoked};
use crate::store::AuthStore;
use crate::two_factor::{challenge_answered, challenge_issued, code_of};

verus! {

/// After a registration, the password check accepts exactly the registered
/// password for that email, and revoking a session changes nothing about it.
pub proof fn password_accepted_exactly(
    s0: AuthStore,
    s1: AuthStore,
    s2: AuthStore,
    email: Seq<char>,
    password: Seq<char>,
    candidate: Seq<char>,
    now: i64,
    r: Result<u64, AuthError>,
    session_id: u128,
)
    requires
        s0.wf(),
        s1.wf(),
        registered(s0, s1, email, password, now, r),
        r is Ok,
        session_revoked(s1, s2, session_id),
    ensures
        s2.verify_password_spec(email, candidate) == if candidate == password {
            Ok::<u64, AuthError>(s0.next_id)
        } else {
            Err::<u64, AuthError>(AuthError::InvalidCredentials)
        },
{
    let e = normalized(email);
    let last = s1.users@.len() - 1;
    assert(s1.users@[last] == s1.users@.last());
    assert(s2.has_email(e));
    let j = s2.email_pos(e);
    assert(s2.users@[j].email@ == e);
    assert(j == last);
    let uid = s0.next_id;
    let m = s1.methods@.len() - 1;
    assert(s1.methods@[m] == s1.methods@.last());
    if candidate == password {
        assert(s2.methods@[m].user_id == uid);
    } else {
        assert forall|k: int|
            0 <= k < s2.methods@.len() && #[trigger] s2.methods@[k].user_id == uid && s2.methods@[k].method
                == AuthMethod::Password implies opt_view(s2.methods@[k].secret) != Some(candidate) by {
            if k < m {
                assert(s1.methods@[k] == s0.methods@[k]);
            }
        }
    }
}

/// A user holds at most one password method.
pub proof fn password_method_unique(s: AuthStore, i: int, j: int)
    requires
        s.wf(),
        0 <= i < s.methods@.len(),
        0 <= j < s.methods@.len(),
        i != j,
        s.methods@[i].method == AuthMethod::Password,
        s.methods@[j].method == AuthMethod::Password,
    ensures
        s.methods@[i].user_id != s.methods@[j].user_id,
{
}

/// Linking a second password method to a user fails with `Conflict`.
pub proof fn second_password_conflicts(
    s: AuthStore,
    user_id: u64,
    provider: Option<Seq<char>>,
    provider_id: Option<Seq<char>>,
)
    requires
        s.wf(),
        s.has_user(user_id),
        s.has_password_method(user_id),
    ensures
        s.link_method_spec(user_id, AuthMethod::Password, provider, provider_id) == Err::<u64, AuthError>(
            AuthError::Conflict,
        ),
{
}

/// Two callbacks for the same external identity resolve to the same user, and
/// the second changes nothing: at most one account is created.
pub proof fn oauth_callbacks_agree(
    s0: AuthStore,
    s1: AuthStore,
    s2: AuthStore,
    provider: Seq<char>,
    provider_id: Seq<char>,
    email1: Seq<char>,
    email2: Seq<char>,
    now1: i64,
    now2: i64,
    r1: Result<u64, AuthError>,
    r2: Result<u64, AuthError>,
)
    requires
        s0.wf(),
        s1.wf(),
        oauth_resolved(s0, s1, provider, provider_id, email1, now1, r1),
        oauth_resolved(s1, s2, provider, provider_id, email2, now2, r2),
        r1 is Ok,
    ensures
        r2 == r1,
        s2 == s1,
        s1.users@.len() <= s0.users@.len() + 1,
{
    if !s0.identity_bound(Some(provider), Some(provider_id)) {
        let m = s1.methods@.len() - 1;
        assert(s1.methods@[m] == s1.methods@.last());
        assert(opt_view(s1.methods@[m].provider) == Some(provider));
        assert(s1.identity_bound(Some(provider), Some(provider_id)));
        let q = s1.identity_pos(provider, provider_id);
        assert(opt_view(s1.methods@[q].provider) == Some(provider));
        assert(q == m);
        let owner = s1.methods@[m].user_id;
        if s0.has_email(normalized(email1)) {
            let p = s0.email_pos(normalized(email1));
            assert(s1.users@[p].id == owner);
            assert(s1.has_user(owner));
            let up = s1.user_pos(owner);
            assert(s1.users@[up].id == owner);
            assert(up == p);
        } else {
            let last = s1.users@.len() - 1;
            assert(s1.users@[last] == s1.users@.last());
            assert(s1.users@[last].id == owner);
            assert(s1.has_user(owner));
            let up = s1.user_pos(owner);
            assert(s1.users@[up].id == owner);
            assert(up == last);
        }
    }
}

/// A second-factor code is accepted at most once.
pub proof fn code_accepted_once(
    s0: AuthStore,
    s1: AuthStore,
    s2: AuthStore,
    user_id: u64,
    method: TwoFactorMethod,
    code: u32,
    now1: i64,
    now2: i64,
    r2: Result<(), AuthError>,
)
    requires
        s0.wf(),
        challenge_answered(s0, s1, user_id, method, code, now1, Ok(())),
        challenge_answered(s1, s2, user_id, method, code, now2, r2),
    ensures
        r2 is Err,
{
    let p = s0.outstanding_pos(user_id, method);
    assert(s0.tokens@[p].user_id == user_id);
    assert forall|k: int|
        0 <= k < s1.tokens@.len() && #[trigger] s1.tokens@[k].user_id == user_id && s1.tokens@[k].method
            == method implies s1.tokens@[k].used by {
        if k != p {
            assert(s1.tokens@[k] == s0.tokens@[k]);
        }
    }
}

/// A session is rejected once its expiry has been reached.
pub proof fn expired_session_rejected(s: AuthStore, session_id: u128, now: i64)
    requires
        s.has_session(session_id),
        now >= s.sessions@[s.session_pos(session_id)].expires_at,
    ensures
        s.validate_spec(session_id, now) == Err::<u64, AuthError>(AuthError::Expired),
{
}

/// Once a user is banned, every session of theirs is rejected.
pub proof fn banned_user_sessions_rejected(
    s0: AuthStore,
    s1: AuthStore,
    user_id: u64,
    r: Result<(), AuthError>,
    session_id: u128,
    now: i64,
)
    requires
        s0.wf(),
        s1.wf(),
        ban_set(s0, s1, user_id, true, r),
        s1.has_session(session_id),
        s1.sessions@[s1.session_pos(session_id)].user_id == user_id,
    ensures
        s1.validate_spec(session_id, now) is Err,
{
    if s1.has_user(user_id) {
        let q = s1.user_pos(user_id);
        assert(s1.users@[q].id == user_id);
        if s0.has_user(user_id) {
            let p = s0.user_pos(user_id);
            assert(s1.users@[p].id == user_id);
            assert(q == p);
        } else {
            assert(s0.users@[q].id == user_id);
        }
    }
}

/// After a refresh, the prior session identifier is unknown.
pub proof fn refreshed_id_retired(
    s0: AuthStore,
    s1: AuthStore,
    session_id: u128,
    new_id: u128,
    now: i64,
    later: i64,
)
    requires
        s0.wf(),
        session_refreshed(s0, s1, session_id, new_id, now, Ok(new_id)),
    ensures
        s1.validate_spec(session_id, later) == Err::<u64, AuthError>(AuthError::NotFound),
{
    let p = s0.session_pos(session_id);
    assert(s0.sessions@[p].id == session_id);
    let rest = s0.sessions@.remove(p);
    assert forall|k: int| 0 <= k < s1.sessions@.len() implies #[trigger] s1.sessions@[k].id != session_id by {
        if k < rest.len() {
            assert(s1.sessions@[k] == rest[k]);
            let ok = if k < p { k } else { k + 1 };
            assert(rest[k] == s0.sessions@[ok]);
        } else {
            assert(s1.sessions@[k] == s1.sessions@.last());
        }
    }
}

/// After all sessions of a user are revoked, none of them is accepted, whatever
/// its own expiry.
pub proof fn revoked_user_sessions_rejected(
    s0: AuthStore,
    s1: AuthStore,
    user_id: u64,
    now: i64,
    session_id: u128,
    later: i64,
)
    requires
        s0.wf(),
        all_revoked(s0, s1, user_id, now),
        s0.has_session(session_id),
        s0.sessions@[s0.session_pos(session_id)].user_id == user_id,
    ensures
        s1.validate_spec(session_id, later) == Err::<u64, AuthError>(AuthError::NotFound),
{
    let p = s0.session_pos(session_id);
    assert(s0.sessions@[p].id == session_id);
    lemma_sessions_without(s0.sessions@, user_id);
    assert forall|k: int| 0 <= k < s1.sessions@.len() implies #[trigger] s1.sessions@[k].id != session_id by {
        assert(s0.sessions@.contains(s1.sessions@[k]));
        let j = choose|j: int| 0 <= j < s0.sessions@.len() && s0.sessions@[j] == s1.sessions@[k];
        assert(s0.sessions@[j] == s1.sessions@[k]);
    }
}

/// Registration leaves every user with at most one password method.
pub proof fn register_keeps_one_password(
    s0: AuthStore,
    s1: AuthStore,
    email: Seq<char>,
    password: Seq<char>,
    now: i64,
    r: Result<u64, AuthError>,
    i: int,
    j: int,
)
    requires
        s0.wf(),
        registered(s0, s1, email, password, now, r),
        0 <= i < s1.methods@.len(),
        0 <= j < s1.methods@.len(),
        i != j,
        s1.methods@[i].method == AuthMethod::Password,
        s1.methods@[j].method == AuthMethod::Password,
    ensures
        s1.methods@[i].user_id != s1.methods@[j].user_id,
{
    if !s0.has_email(normalized(email)) {
        let m = s1.methods@.len() - 1;
        assert(s1.methods@[m] == s1.methods@.last());
        if i < m {
            assert(s1.methods@[i] == s0.methods@[i]);
        }
        if j < m {
            assert(s1.methods@[j] == s0.methods@[j]);
        }
    }
}

/// Once a challenge is answered, no challenge of that user and channel is
/// outstanding until a new one is issued.
pub proof fn answered_challenge_closed(
    s0: AuthStore,
    s1: AuthStore,
    user_id: u64,
    method: TwoFactorMethod,
    code: u32,
    now: i64,
)
    requires
        s0.wf(),
        challenge_answered(s0, s1, user_id, method, code, now, Ok(())),
    ensures
        !s1.has_outstanding(user_id, method),
{
    let p = s0.outstanding_pos(user_id, method);
    assert(s0.tokens@[p].user_id == user_id);
    assert forall|k: int|
        0 <= k < s1.tokens@.len() && #[trigger] s1.tokens@[k].user_id == user_id && s1.tokens@[k].method
            == method implies s1.tokens@[k].used by {
        if k != p {
            assert(s1.tokens@[k] == s0.tokens@[k]);
        }
    }
}

/// A used token stays used when a challenge is issued or answered.
pub proof fn token_use_is_permanent(
    s0: AuthStore,
    s1: AuthStore,
    s2: AuthStore,
    user_id: u64,
    method: TwoFactorMethod,
    random: u128,
    code: u32,
    now: i64,
    r1: Result<u32, AuthError>,
    r2: Result<(), AuthError>,
    k: int,
)
    requires
        challenge_issued(s0, s1, user_id, method, random, now, r1),
        challenge_answered(s1, s2, user_id, method, code, now, r2),
        0 <= k < s0.tokens@.len(),
        s0.tokens@[k].used,
    ensures
        k < s1.tokens@.len() && s1.tokens@[k].used,
        k < s2.tokens@.len() && s2.tokens@[k].used,
{
}

/// Issuing a second challenge on a channel makes the first code unusable and
/// leaves the new code as the one outstanding challenge.
pub proof fn superseded_code_rejected(
    s0: AuthStore,
    s1: AuthStore,
    s2: AuthStore,
    s3: AuthStore,
    user_id: u64,
    method: TwoFactorMethod,
    random1: u128,
    random2: u128,
    now1: i64,
    now2: i64,
    now3: i64,
    r1: Result<u32, AuthError>,
    r2: Result<u32, AuthError>,
    r3: Result<(), AuthError>,
)
    requires
        s0.wf(),
        s1.wf(),
        challenge_issued(s0, s1, user_id, method, random1, now1, r1),
        challenge_issued(s1, s2, user_id, method, random2, now2, r2),
        r1 is Ok,
        code_of(random1) != code_of(random2),
        challenge_answered(s2, s3, user_id, method, code_of(random1), now3, r3),
    ensures
        r3 is Err,
        s2.has_outstanding(user_id, method),
        s2.tokens@[s2.outstanding_pos(user_id, method)].token == code_of(random2),
{
    let last = s2.tokens@.len() - 1;
    assert(s2.tokens@[last] == s2.tokens@.last());
    assert(s2.tokens@[last].user_id == user_id);
    let q = s2.outstanding_pos(user_id, method);
    assert(s2.tokens@[q].user_id == user_id);
    if q != last {
        assert(s2.tokens@[q] == crate::two_factor::superseded(s1.tokens@[q], user_id, method));
    }
}

} // verus!
