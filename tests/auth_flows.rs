use authcore::credentials::constant_time_eq;
use authcore::sessions::SESSION_LIFETIME;
use authcore::two_factor::CHALLENGE_WINDOW;
use authcore::{AuthError, AuthMethod, AuthStore, LoginOutcome, TwoFactorMethod, UserRole};

fn store_with(email: &str, password: &str) -> (AuthStore, u64) {
    let mut s = AuthStore::new();
    let id = s.register(email, password.to_string(), 10).unwrap();
    (s, id)
}

#[test]
fn register_then_verify_password() {
    let (s, id) = store_with("a@x.com", "p1");
    assert_eq!(s.verify_password("a@x.com", "p1"), Ok(id));
    assert_eq!(s.verify_password("a@x.com", "wrong"), Err(AuthError::InvalidCredentials));
}

#[test]
fn password_check_survives_session_revoke() {
    let (mut s, id) = store_with("a@x.com", "p1");
    s.create_session(id, None, 7, 20).unwrap();
    s.revoke(7).unwrap();
    assert_eq!(s.verify_password("a@x.com", "p1"), Ok(id));
    assert_eq!(s.verify_password("a@x.com", "p2"), Err(AuthError::InvalidCredentials));
}

#[test]
fn email_lookup_ignores_ascii_case() {
    let (s, id) = store_with("Alice@Example.COM", "p1");
    assert_eq!(s.users[0].email, "alice@example.com");
    assert_eq!(s.find_by_email("ALICE@example.com"), Ok(id));
    assert_eq!(s.verify_password("alice@EXAMPLE.com", "p1"), Ok(id));
    assert_eq!(s.find_by_email("bob@example.com"), Err(AuthError::NotFound));
}

#[test]
fn unknown_email_fails_verification() {
    let (s, _) = store_with("a@x.com", "p1");
    assert_eq!(s.verify_password("b@x.com", "p1"), Err(AuthError::InvalidCredentials));
}

#[test]
fn duplicate_registration_conflicts() {
    let (mut s, _) = store_with("a@x.com", "p1");
    assert_eq!(s.register("A@X.com", "p2".to_string(), 11), Err(AuthError::Conflict));
    assert_eq!(s.users.len(), 1);
}

#[test]
fn second_password_method_conflicts() {
    let (mut s, id) = store_with("a@x.com", "p1");
    let r = s.link_method(id, AuthMethod::Password, None, None, Some("p2".to_string()), 12);
    assert_eq!(r, Err(AuthError::Conflict));
    let passwords = s.methods.iter().filter(|m| m.method == AuthMethod::Password).count();
    assert_eq!(passwords, 1);
}

#[test]
fn link_to_unknown_user_fails() {
    let mut s = AuthStore::new();
    let r = s.link_method(99, AuthMethod::Oauth, Some("g".to_string()), Some("1".to_string()), None, 1);
    assert_eq!(r, Err(AuthError::NotFound));
}

#[test]
fn unlink_last_method_is_refused() {
    let (mut s, id) = store_with("a@x.com", "p1");
    let pw = s.methods[0].id;
    assert_eq!(s.unlink_method(id, pw), Err(AuthError::InvalidState));
    let g = s
        .link_method(id, AuthMethod::Oauth, Some("google".to_string()), Some("g1".to_string()), None, 13)
        .unwrap();
    assert_eq!(s.unlink_method(id, 12345), Err(AuthError::NotFound));
    assert_eq!(s.unlink_method(id, pw), Ok(()));
    assert_eq!(s.methods.len(), 1);
    assert_eq!(s.methods[0].id, g);
    assert_eq!(s.unlink_method(id, g), Err(AuthError::InvalidState));
}

#[test]
fn oauth_same_identity_resolves_to_one_user() {
    let mut s = AuthStore::new();
    let a = s.verify_oauth("github", "42", "dev@x.com", 5).unwrap();
    let b = s.verify_oauth("github", "42", "other@x.com", 6).unwrap();
    assert_eq!(a, b);
    assert_eq!(s.users.len(), 1);
    assert_eq!(s.methods.len(), 1);
    assert_eq!(s.users[0].password, None);
}

#[test]
fn oauth_links_by_verified_email() {
    let (mut s, id) = store_with("a@x.com", "p1");
    let r = s.verify_oauth("google", "g-7", "A@x.com", 30);
    assert_eq!(r, Ok(id));
    assert_eq!(s.users.len(), 1);
    assert_eq!(s.methods.len(), 2);
    assert_eq!(s.methods[1].method, AuthMethod::Oauth);
    assert_eq!(s.methods[1].provider_id.as_deref(), Some("g-7"));
}

#[test]
fn oauth_for_banned_account_fails() {
    let (mut s, id) = store_with("a@x.com", "p1");
    s.set_banned(id, true).unwrap();
    assert_eq!(s.verify_oauth("google", "g-7", "a@x.com", 30), Err(AuthError::AccountBanned));
    assert_eq!(s.verify_password("a@x.com", "p1"), Err(AuthError::AccountBanned));
}

#[test]
fn webauthn_resolves_bound_user() {
    let (mut s, id) = store_with("a@x.com", "p1");
    s.link_method(id, AuthMethod::Webauthn, Some("rp".to_string()), Some("cred-1".to_string()), Some("pk".to_string()), 3)
        .unwrap();
    assert_eq!(s.verify_webauthn("cred-1", true), Ok(id));
    assert_eq!(s.verify_webauthn("cred-1", false), Err(AuthError::InvalidAssertion));
    assert_eq!(s.verify_webauthn("cred-2", true), Err(AuthError::NotFound));
}

#[test]
fn two_factor_code_is_single_use() {
    let (mut s, id) = store_with("a@x.com", "p1");
    let code = s.initiate_two_factor(id, TwoFactorMethod::Authenticator, 1_234_567, 100).unwrap();
    assert_eq!(code, 234_567);
    assert_eq!(s.verify_two_factor(id, TwoFactorMethod::Authenticator, code, 101), Ok(()));
    assert_eq!(s.verify_two_factor(id, TwoFactorMethod::Authenticator, code, 102), Err(AuthError::InvalidToken));
}

#[test]
fn reissued_email_challenge_supersedes_the_first() {
    let (mut s, id) = store_with("a@x.com", "p1");
    let t1 = s.initiate_two_factor(id, TwoFactorMethod::Email, 111_111, 100).unwrap();
    let t2 = s.initiate_two_factor(id, TwoFactorMethod::Email, 222_222, 101).unwrap();
    assert_ne!(t1, t2);
    assert_eq!(s.verify_two_factor(id, TwoFactorMethod::Email, t1, 102), Err(AuthError::InvalidToken));
    assert_eq!(s.verify_two_factor(id, TwoFactorMethod::Email, t2, 103), Ok(()));
}

#[test]
fn expired_challenge_is_rejected() {
    let (mut s, id) = store_with("a@x.com", "p1");
    let code = s.initiate_two_factor(id, TwoFactorMethod::Sms, 42, 100).unwrap();
    assert_eq!(s.tokens[0].expires_at, 100 + CHALLENGE_WINDOW);
    assert_eq!(
        s.verify_two_factor(id, TwoFactorMethod::Sms, code, 100 + CHALLENGE_WINDOW),
        Err(AuthError::Expired)
    );
    assert_eq!(s.verify_two_factor(id, TwoFactorMethod::Sms, code + 1, 101), Err(AuthError::InvalidToken));
    assert_eq!(s.initiate_two_factor(999, TwoFactorMethod::Sms, 1, 1), Err(AuthError::NotFound));
}

#[test]
fn session_expires_at_its_deadline() {
    let (mut s, id) = store_with("a@x.com", "p1");
    s.create_session(id, Some("agent".to_string()), 1, 1000).unwrap();
    assert_eq!(s.sessions[0].expires_at, 1000 + SESSION_LIFETIME);
    assert_eq!(s.validate(1, 1000 + SESSION_LIFETIME - 1), Ok(id));
    assert_eq!(s.validate(1, 1000 + SESSION_LIFETIME), Err(AuthError::Expired));
}

#[test]
fn session_expiry_clamps_at_largest_time() {
    let (mut s, id) = store_with("a@x.com", "p1");
    s.create_session(id, None, 1, i64::MAX - 5).unwrap();
    assert_eq!(s.sessions[0].expires_at, i64::MAX);
}

#[test]
fn ban_rejects_every_session_of_the_user() {
    let (mut s, id) = store_with("a@x.com", "p1");
    s.create_session(id, None, 1, 10).unwrap();
    s.create_session(id, None, 2, 10).unwrap();
    s.set_banned(id, true).unwrap();
    assert_eq!(s.validate(1, 11), Err(AuthError::AccountBanned));
    assert_eq!(s.validate(2, 11), Err(AuthError::AccountBanned));
    s.set_banned(id, false).unwrap();
    assert_eq!(s.validate(1, 11), Ok(id));
    assert_eq!(s.set_banned(77, true), Err(AuthError::NotFound));
}

#[test]
fn refresh_retires_the_old_identifier() {
    let (mut s, id) = store_with("a@x.com", "p1");
    s.create_session(id, Some("ua".to_string()), 1, 10).unwrap();
    assert_eq!(s.refresh(1, 2, 20), Ok(2));
    assert_eq!(s.validate(1, 21), Err(AuthError::NotFound));
    assert_eq!(s.validate(2, 21), Ok(id));
    assert_eq!(s.sessions[0].user_agent.as_deref(), Some("ua"));
    assert_eq!(s.sessions[0].expires_at, 20 + SESSION_LIFETIME);
    assert_eq!(s.refresh(1, 3, 22), Err(AuthError::NotFound));
    assert_eq!(s.refresh(2, 2, 22), Err(AuthError::Conflict));
}

#[test]
fn revoke_all_ends_unexpired_sessions() {
    let (mut s, id) = store_with("a@x.com", "p1");
    let other = s.register("b@x.com", "q".to_string(), 10).unwrap();
    s.create_session(id, None, 1, 10).unwrap();
    s.create_session(other, None, 2, 10).unwrap();
    assert_eq!(s.revoke_all_for_user(id, 50), Ok(()));
    assert_eq!(s.validate(1, 51), Err(AuthError::NotFound));
    assert_eq!(s.validate(2, 51), Ok(other));
}

#[test]
fn session_predating_watermark_is_revoked() {
    let (mut s, id) = store_with("a@x.com", "p1");
    s.revoke_all_for_user(id, 100).unwrap();
    s.create_session(id, None, 5, 90).unwrap();
    assert_eq!(s.validate(5, 95), Err(AuthError::Revoked));
    s.create_session(id, None, 6, 100).unwrap();
    assert_eq!(s.validate(6, 101), Ok(id));
}

#[test]
fn revoke_is_idempotent() {
    let (mut s, id) = store_with("a@x.com", "p1");
    s.create_session(id, None, 1, 10).unwrap();
    assert_eq!(s.revoke(1), Ok(()));
    assert_eq!(s.revoke(1), Ok(()));
    assert_eq!(s.revoke(9), Ok(()));
    assert!(s.sessions.is_empty());
}

#[test]
fn session_identifier_collision_conflicts() {
    let (mut s, id) = store_with("a@x.com", "p1");
    s.create_session(id, None, 1, 10).unwrap();
    assert_eq!(s.create_session(id, None, 1, 11), Err(AuthError::Conflict));
    assert_eq!(s.create_session(404, None, 3, 11), Err(AuthError::NotFound));
}

#[test]
fn login_with_and_without_second_factor() {
    let (mut s, id) = store_with("a@x.com", "p1");
    assert_eq!(s.login("a@x.com", "p1", None, 8, 10), Ok(LoginOutcome::Authenticated(8)));
    assert_eq!(s.validate(8, 11), Ok(id));
    assert_eq!(s.login("a@x.com", "nope", None, 9, 10), Err(AuthError::InvalidCredentials));
    s.set_two_factor(id, Some(TwoFactorMethod::Email)).unwrap();
    assert_eq!(
        s.login("a@x.com", "p1", None, 9, 12),
        Ok(LoginOutcome::SecondFactorRequired(id, TwoFactorMethod::Email))
    );
    assert_eq!(s.sessions.len(), 1);
    let code = s.initiate_two_factor(id, TwoFactorMethod::Email, 5, 12).unwrap();
    assert_eq!(s.complete_second_factor(id, TwoFactorMethod::Email, code + 1, None, 9, 13), Err(AuthError::InvalidToken));
    assert_eq!(s.complete_second_factor(id, TwoFactorMethod::Email, code, None, 9, 13), Ok(9));
    assert_eq!(s.validate(9, 14), Ok(id));
}

#[test]
fn created_user_defaults() {
    let mut s = AuthStore::new();
    let id = s.create_user("Z@Y.org", None, UserRole::Admin, 3).unwrap();
    let u = s.find_by_id(id).unwrap();
    assert_eq!(u.email, "z@y.org");
    assert_eq!(u.role, UserRole::Admin);
    assert!(!u.is_banned);
    assert_eq!(u.created_at, 3);
    assert!(s.find_by_id(id + 1).is_err());
}

#[test]
fn clocked_operations_run_end_to_end() {
    let mut s = AuthStore::new();
    let id = s.register_now("live@x.com", "pw".to_string()).unwrap();
    let sid = match s.login_now("live@x.com", "pw", None).unwrap() {
        LoginOutcome::Authenticated(sid) => sid,
        LoginOutcome::SecondFactorRequired(_, _) => panic!("no second factor configured"),
    };
    assert_eq!(s.validate_now(sid), Ok(id));
    let sid2 = s.refresh_now(sid).unwrap();
    assert_ne!(sid, sid2);
    assert_eq!(s.validate_now(sid), Err(AuthError::NotFound));
    let code = s.initiate_two_factor_now(id, TwoFactorMethod::Sms).unwrap();
    assert!(code < 1_000_000);
    assert!(s.complete_second_factor_now(id, TwoFactorMethod::Sms, code, None).is_ok());
    assert_eq!(s.verify_oauth_now("gh", "1", "live@x.com"), Ok(id));
    s.revoke_all_for_user_now(id).unwrap();
    assert_eq!(s.validate_now(sid2), Err(AuthError::NotFound));
}

#[test]
fn constant_time_comparison_matches_equality() {
    assert!(constant_time_eq("secret", "secret"));
    assert!(!constant_time_eq("secret", "secreT"));
    assert!(!constant_time_eq("secret", "secret!"));
    assert!(!constant_time_eq("", "x"));
    assert!(constant_time_eq("", ""));
    assert!(constant_time_eq("héllo", "héllo"));
    assert!(!constant_time_eq("héllo", "hello"));
}

#[test]
fn refresh_of_expired_or_banned_session_fails() {
    let (mut s, id) = store_with("a@x.com", "p1");
    s.create_session(id, None, 1, 10).unwrap();
    assert_eq!(s.refresh(1, 2, 10 + SESSION_LIFETIME), Err(AuthError::Expired));
    s.set_banned(id, true).unwrap();
    assert_eq!(s.refresh(1, 2, 11), Err(AuthError::AccountBanned));
    assert_eq!(s.sessions.len(), 1);
    assert_eq!(s.sessions[0].id, 1);
}

#[test]
fn two_factor_channels_are_independent() {
    let (mut s, id) = store_with("a@x.com", "p1");
    let e = s.initiate_two_factor(id, TwoFactorMethod::Email, 7, 1).unwrap();
    let m = s.initiate_two_factor(id, TwoFactorMethod::Sms, 8, 1).unwrap();
    assert_eq!(s.verify_two_factor(id, TwoFactorMethod::Email, e, 2), Ok(()));
    assert_eq!(s.verify_two_factor(id, TwoFactorMethod::Sms, m, 2), Ok(()));
    assert!(s.tokens.iter().all(|t| t.used));
}

#[test]
fn rotated_password_replaces_the_old_one() {
    let (mut s, id) = store_with("a@x.com", "p1");
    let pw = s.methods[0].id;
    assert_eq!(s.rotate_secret(id + 1, pw, Some("p2".to_string()), 40), Err(AuthError::NotFound));
    assert_eq!(s.rotate_secret(id, pw, Some("p2".to_string()), 40), Ok(()));
    assert_eq!(s.methods[0].updated_at, 40);
    assert_eq!(s.verify_password("a@x.com", "p2"), Ok(id));
    assert_eq!(s.verify_password("a@x.com", "p1"), Err(AuthError::InvalidCredentials));
}

#[test]
fn passkey_credential_id_binds_once() {
    let (mut s, a) = store_with("a@x.com", "p1");
    let b = s.register("b@x.com", "p2".to_string(), 10).unwrap();
    s.link_method(a, AuthMethod::Webauthn, None, Some("cred-9".to_string()), Some("pk-a".to_string()), 11).unwrap();
    let r = s.link_method(b, AuthMethod::Webauthn, None, Some("cred-9".to_string()), Some("pk-b".to_string()), 12);
    assert_eq!(r, Err(AuthError::Conflict));
    assert_eq!(s.verify_webauthn("cred-9", true), Ok(a));
    assert!(s.link_method(b, AuthMethod::Webauthn, None, Some("cred-10".to_string()), None, 13).is_ok());
    assert_eq!(s.verify_webauthn("cred-10", true), Ok(b));
}

#[test]
fn account_without_password_fails_password_check() {
    let mut s = AuthStore::new();
    assert_eq!(s.next_id, 1);
    let id = s.verify_oauth("github", "7", "oauth@x.com", 1).unwrap();
    assert_eq!(id, 1);
    assert_eq!(s.verify_password("oauth@x.com", ""), Err(AuthError::InvalidCredentials));
    assert_eq!(
        s.verify_password("oauth@x.com", authcore::credentials::PLACEHOLDER_HASH),
        Err(AuthError::InvalidCredentials)
    );
}
