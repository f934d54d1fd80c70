use base64::Engine;
use tobira_auth::callback::{CallbackReply, CallbackResponse};
use tobira_auth::config::{AuthConfig, AuthMode};
use tobira_auth::context::{Resolution, SessionLookup};
use tobira_auth::headers::Header;
use tobira_auth::session::{Session, SessionStore};
use tobira_auth::user::{AuthContext, AuthError, User};

const DAY_MS: i64 = 24 * 60 * 60 * 1000;

fn config(mode: AuthMode) -> AuthConfig {
    AuthConfig {
        mode,
        callback_url: None,
        username_header: "x-tobira-username".to_string(),
        display_name_header: "x-tobira-user-display-name".to_string(),
        email_header: "x-tobira-user-email".to_string(),
        roles_header: "x-tobira-user-roles".to_string(),
        moderator_role: "ROLE_TOBIRA_MODERATOR".to_string(),
        upload_role: "ROLE_TOBIRA_UPLOAD".to_string(),
        studio_role: "ROLE_TOBIRA_STUDIO".to_string(),
        editor_role: "ROLE_TOBIRA_EDITOR".to_string(),
        user_realm_role: "ROLE_USER".to_string(),
        user_role_prefixes: vec!["ROLE_USER_".to_string()],
        session_duration_ms: 30 * DAY_MS as u64,
        trusted_external_key: None,
    }
}

fn encoded(name: &str, value: &str) -> Header {
    Header {
        name: name.to_string(),
        value: base64::engine::general_purpose::URL_SAFE.encode(value).into_bytes(),
    }
}

fn raw(name: &str, value: &str) -> Header {
    Header { name: name.to_string(), value: value.as_bytes().to_vec() }
}

fn alice_headers(roles: &str) -> Vec<Header> {
    vec![
        encoded("x-tobira-username", "alice"),
        encoded("x-tobira-user-display-name", "Alice"),
        encoded("x-tobira-user-roles", roles),
    ]
}

fn sorted(roles: &[String]) -> Vec<String> {
    let mut v = roles.to_vec();
    v.sort();
    v
}

fn session(id: &str, roles: &[&str], created_ms: i64) -> Session {
    Session {
        id: id.to_string(),
        username: "bob".to_string(),
        display_name: "Bob".to_string(),
        roles: roles.iter().map(|r| r.to_string()).collect(),
        email: Some("bob@example.org".to_string()),
        created_ms,
    }
}

#[test]
fn header_mode_resolves_alice() {
    let cfg = config(AuthMode::FullAuthProxy);
    let headers = alice_headers("ROLE_ANONYMOUS,ROLE_USER_ALICE");
    match AuthContext::begin(&headers, &cfg) {
        Resolution::Done(AuthContext::User(u)) => {
            assert_eq!(u.username, "alice");
            assert_eq!(u.display_name, "Alice");
            assert_eq!(u.email, None);
            assert_eq!(u.user_role, "ROLE_USER_ALICE");
            assert_eq!(sorted(&u.roles), vec!["ROLE_ANONYMOUS".to_string(), "ROLE_USER_ALICE".to_string()]);
        }
        other => panic!("unexpected resolution: {other:?}"),
    }
}

#[test]
fn header_mode_trims_roles_and_reads_email() {
    let cfg = config(AuthMode::FullAuthProxy);
    let mut headers = alice_headers(" ROLE_STAFF , ROLE_USER_ALICE ,ROLE_STAFF");
    headers.push(encoded("x-tobira-user-email", "alice@example.org"));
    let u = User::from_auth_headers(&headers, &cfg).expect("user");
    assert_eq!(u.email.as_deref(), Some("alice@example.org"));
    assert_eq!(u.roles, vec!["ROLE_ANONYMOUS", "ROLE_STAFF", "ROLE_USER_ALICE"]);
    assert_eq!(u.user_role, "ROLE_USER_ALICE");
}

#[test]
fn header_mode_without_user_role_is_anonymous() {
    let cfg = config(AuthMode::FullAuthProxy);
    let headers = alice_headers("ROLE_ANONYMOUS,ROLE_STAFF");
    assert!(matches!(AuthContext::begin(&headers, &cfg), Resolution::Done(AuthContext::Anonymous)));
}

#[test]
fn header_mode_with_bad_base64_is_anonymous() {
    let cfg = config(AuthMode::FullAuthProxy);
    let headers = vec![
        raw("x-tobira-username", "not base64!"),
        encoded("x-tobira-user-display-name", "Alice"),
        encoded("x-tobira-user-roles", "ROLE_USER_ALICE"),
    ];
    assert!(User::from_auth_headers(&headers, &cfg).is_none());
    let missing_roles = vec![encoded("x-tobira-username", "alice"), encoded("x-tobira-user-display-name", "Alice")];
    assert!(User::from_auth_headers(&missing_roles, &cfg).is_none());
}

#[test]
fn header_mode_with_invalid_utf8_is_anonymous() {
    let cfg = config(AuthMode::FullAuthProxy);
    let bad = base64::engine::general_purpose::URL_SAFE.encode([0xffu8, 0xfe]);
    let headers = vec![
        Header { name: "x-tobira-username".to_string(), value: bad.into_bytes() },
        encoded("x-tobira-user-display-name", "Alice"),
        encoded("x-tobira-user-roles", "ROLE_USER_ALICE"),
    ];
    assert!(User::from_auth_headers(&headers, &cfg).is_none());
}

#[test]
fn multiple_user_roles_take_the_first() {
    let cfg = config(AuthMode::FullAuthProxy);
    let headers = alice_headers("ROLE_USER_B,ROLE_USER_A");
    let u = User::from_auth_headers(&headers, &cfg).expect("user");
    assert_eq!(u.user_role, "ROLE_USER_B");
}

#[test]
fn no_auth_mode_is_anonymous() {
    let cfg = config(AuthMode::NoAuth);
    let headers = alice_headers("ROLE_USER_ALICE");
    assert!(matches!(AuthContext::begin(&headers, &cfg), Resolution::Done(AuthContext::Anonymous)));
}

#[test]
fn trusted_key_matches_exactly() {
    let mut cfg = config(AuthMode::FullAuthProxy);
    cfg.trusted_external_key = Some("s3cret".to_string());
    let headers = vec![raw("x-tobira-trusted-external-key", "s3cret")];
    assert!(matches!(AuthContext::begin(&headers, &cfg), Resolution::Done(AuthContext::TrustedExternal)));

    let wrong = vec![raw("x-tobira-trusted-external-key", "s3cre")];
    assert!(matches!(AuthContext::begin(&wrong, &cfg), Resolution::Done(AuthContext::Anonymous)));

    cfg.trusted_external_key = None;
    assert!(matches!(AuthContext::begin(&headers, &cfg), Resolution::Done(AuthContext::Anonymous)));
}

#[test]
fn trusted_key_falls_through_to_mode() {
    let mut cfg = config(AuthMode::FullAuthProxy);
    cfg.trusted_external_key = Some("s3cret".to_string());
    let mut headers = alice_headers("ROLE_USER_ALICE");
    headers.push(raw("x-tobira-trusted-external-key", "other"));
    assert!(matches!(AuthContext::begin(&headers, &cfg), Resolution::Done(AuthContext::User(_))));
}

#[test]
fn session_mode_reads_cookie() {
    let cfg = config(AuthMode::LoginProxy);
    let headers = vec![raw("cookie", "theme=dark; tobira-session=abc123; x=y")];
    match AuthContext::begin(&headers, &cfg) {
        Resolution::LookupSession(id) => assert_eq!(id, "abc123"),
        other => panic!("unexpected resolution: {other:?}"),
    }
    let none = vec![raw("cookie", "theme=dark")];
    assert!(matches!(AuthContext::begin(&none, &cfg), Resolution::Done(AuthContext::Anonymous)));
    assert!(matches!(AuthContext::begin(&Vec::new(), &cfg), Resolution::Done(AuthContext::Anonymous)));
}

#[test]
fn session_mode_fresh_and_expired() {
    let cfg = config(AuthMode::LoginProxy);
    let now = 1_700_000_000_000i64;
    let id = "abc123".to_string();
    let fresh = session("abc123", &["ROLE_USER_BOB", "ROLE_STAFF"], now - 10_000);
    match AuthContext::finish_session(SessionLookup::Found(fresh), &id, now, &cfg) {
        Ok(AuthContext::User(u)) => {
            assert_eq!(u.username, "bob");
            assert_eq!(u.display_name, "Bob");
            assert_eq!(u.email.as_deref(), Some("bob@example.org"));
            assert_eq!(u.user_role, "ROLE_USER_BOB");
        }
        other => panic!("unexpected outcome: {other:?}"),
    }
    let old = session("abc123", &["ROLE_USER_BOB"], now - 31 * DAY_MS);
    assert!(matches!(
        AuthContext::finish_session(SessionLookup::Found(old), &id, now, &cfg),
        Ok(AuthContext::Anonymous)
    ));
}

#[test]
fn session_mode_errors() {
    let cfg = config(AuthMode::LoginProxy);
    let id = "abc123".to_string();
    assert_eq!(
        AuthContext::finish_session(SessionLookup::Failed, &id, 0, &cfg).unwrap_err(),
        AuthError::InternalError
    );
    assert!(matches!(
        AuthContext::finish_session(SessionLookup::Missing, &id, 0, &cfg),
        Ok(AuthContext::Anonymous)
    ));
    let no_role = session("abc123", &["ROLE_STAFF"], 0);
    assert_eq!(
        AuthContext::finish_session(SessionLookup::Found(no_role), &id, 1, &cfg).unwrap_err(),
        AuthError::MissingUserRole
    );
}

#[test]
fn callback_mode_outcomes() {
    let cfg = config(AuthMode::AuthCallback);
    assert!(matches!(AuthContext::begin(&Vec::new(), &cfg), Resolution::AskCallback));

    let no_user = CallbackResponse { status: 200, reply: Some(CallbackReply::NoUser) };
    assert!(matches!(AuthContext::finish_callback(Some(no_user), &cfg), Ok(AuthContext::Anonymous)));

    let gateway = CallbackResponse { status: 502, reply: Some(CallbackReply::NoUser) };
    assert_eq!(AuthContext::finish_callback(Some(gateway), &cfg).unwrap_err(), AuthError::BadGateway);

    let garbage = CallbackResponse { status: 200, reply: None };
    assert_eq!(AuthContext::finish_callback(Some(garbage), &cfg).unwrap_err(), AuthError::BadGateway);
    assert_eq!(AuthContext::finish_callback(None, &cfg).unwrap_err(), AuthError::BadGateway);
}

#[test]
fn callback_mode_user() {
    let cfg = config(AuthMode::AuthCallback);
    let user = CallbackReply::User {
        username: "carol".to_string(),
        display_name: "Carol".to_string(),
        email: None,
        roles: vec!["ROLE_USER_CAROL".to_string(), "ROLE_A".to_string(), "ROLE_A".to_string()],
    };
    match AuthContext::finish_callback(Some(CallbackResponse { status: 200, reply: Some(user) }), &cfg) {
        Ok(AuthContext::User(u)) => {
            assert_eq!(u.username, "carol");
            assert_eq!(u.user_role, "ROLE_USER_CAROL");
            assert_eq!(u.roles, vec!["ROLE_USER_CAROL", "ROLE_A"]);
        }
        other => panic!("unexpected outcome: {other:?}"),
    }
    let no_role = CallbackReply::User {
        username: "carol".to_string(),
        display_name: "Carol".to_string(),
        email: None,
        roles: vec!["ROLE_A".to_string()],
    };
    assert_eq!(
        AuthContext::finish_callback(Some(CallbackResponse { status: 200, reply: Some(no_role) }), &cfg).unwrap_err(),
        AuthError::MissingUserRole
    );
}

#[test]
fn context_helpers() {
    assert!(!AuthContext::Anonymous.is_user());
    assert_eq!(AuthContext::Anonymous.debug_log_username(), "anonymous");
    assert_eq!(AuthContext::TrustedExternal.debug_log_username(), "trusted external");
    assert_eq!(AuthContext::Anonymous.roles(), vec!["ROLE_ANONYMOUS"]);
    assert_eq!(AuthContext::TrustedExternal.roles(), vec!["ROLE_ADMIN"]);
    let cfg = config(AuthMode::FullAuthProxy);
    let u = User::from_auth_headers(&alice_headers("ROLE_USER_ALICE"), &cfg).unwrap();
    let ctx = AuthContext::User(u);
    assert!(ctx.is_user());
    assert_eq!(ctx.debug_log_username(), "'alice'");
}

#[test]
fn context_capabilities() {
    let cfg = config(AuthMode::FullAuthProxy);
    let trusted = AuthContext::TrustedExternal;
    assert!(trusted.is_admin());
    assert!(trusted.is_moderator(&cfg));
    assert!(trusted.can_upload(&cfg));
    assert!(trusted.can_use_studio(&cfg));
    assert!(trusted.can_use_editor(&cfg));
    assert!(trusted.require_moderator(&cfg).is_some());
    assert!(trusted.overlaps_roles(&vec!["ROLE_X".to_string()]));

    let anonymous = AuthContext::Anonymous;
    assert!(!anonymous.is_admin());
    assert!(!anonymous.is_moderator(&cfg));
    assert!(anonymous.required_upload_permission(&cfg).is_none());
    assert!(anonymous.required_studio_permission(&cfg).is_none());
    assert!(anonymous.required_editor_permission(&cfg).is_none());
    assert!(!anonymous.can_create_user_realm(&cfg));
    assert!(anonymous.overlaps_roles(&vec!["ROLE_ANONYMOUS".to_string()]));
    assert!(!anonymous.overlaps_roles(&vec!["ROLE_X".to_string()]));

    let headers = alice_headers("ROLE_USER_ALICE,ROLE_TOBIRA_STUDIO,ROLE_USER");
    let user = AuthContext::User(User::from_auth_headers(&headers, &cfg).unwrap());
    assert!(user.can_use_studio(&cfg));
    assert!(!user.can_use_editor(&cfg));
    assert!(user.can_create_user_realm(&cfg));
    assert!(user.required_studio_permission(&cfg).is_some());
}

fn bob_user() -> User {
    User::from_parts(
        "bob".to_string(),
        "Bob".to_string(),
        None,
        vec!["ROLE_USER_BOB".to_string(), "ROLE_STAFF".to_string()],
        &vec!["ROLE_USER_".to_string()],
    )
    .unwrap()
}

#[test]
fn resolve_against_store_by_age() {
    let cfg = config(AuthMode::LoginProxy);
    let now = 1_700_000_000_000i64;
    let mut store = SessionStore::new();
    store.create_session(&bob_user(), "fresh".to_string(), now - 10_000).unwrap();
    store.create_session(&bob_user(), "stale".to_string(), now - 31 * DAY_MS).unwrap();

    let fresh = vec![raw("cookie", "tobira-session=fresh")];
    match AuthContext::new(&fresh, &cfg, &store, now, None) {
        Ok(AuthContext::User(u)) => {
            assert_eq!(u.username, "bob");
            assert_eq!(u.user_role, "ROLE_USER_BOB");
            assert_eq!(sorted(&u.roles), vec!["ROLE_STAFF".to_string(), "ROLE_USER_BOB".to_string()]);
        }
        other => panic!("unexpected outcome: {other:?}"),
    }
    let stale = vec![raw("cookie", "tobira-session=stale")];
    assert!(matches!(AuthContext::new(&stale, &cfg, &store, now, None), Ok(AuthContext::Anonymous)));
    let unknown = vec![raw("cookie", "tobira-session=other")];
    assert!(matches!(AuthContext::new(&unknown, &cfg, &store, now, None), Ok(AuthContext::Anonymous)));
}

#[test]
fn resolve_trusted_key_in_every_mode() {
    let store = SessionStore::new();
    for mode in [
        AuthMode::NoAuth,
        AuthMode::FullAuthProxy,
        AuthMode::LoginProxy,
        AuthMode::AuthCallback,
        AuthMode::LoginCallback,
        AuthMode::Opencast,
    ] {
        let mut cfg = config(mode);
        cfg.trusted_external_key = Some("k3y".to_string());
        let headers = vec![raw("x-tobira-trusted-external-key", "k3y")];
        assert!(matches!(AuthContext::new(&headers, &cfg, &store, 0, None), Ok(AuthContext::TrustedExternal)));
    }
    let cfg = config(AuthMode::AuthCallback);
    let headers = vec![raw("x-tobira-trusted-external-key", "k3y")];
    assert_eq!(AuthContext::new(&headers, &cfg, &store, 0, None).unwrap_err(), AuthError::BadGateway);
}
