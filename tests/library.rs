use base64::Engine;
use tobira_auth::capability::{
    can_create_user_realm, can_upload, can_use_editor, can_use_studio, is_admin, is_moderator, overlaps_roles,
    require_moderator, required_editor_permission, required_studio_permission, required_upload_permission,
};
use tobira_auth::codec::{base64decode, decode_header_text};
use tobira_auth::config::{parse_callback_url, AuthConfig, AuthMode, CallbackUrl, ConfigError};
use tobira_auth::roles::{find_user_role, starts_with};
use tobira_auth::session::{is_expired, is_live, new_session_id, SessionStore, SESSION_ID_BYTES};
use tobira_auth::text::split_at_commas;
use tobira_auth::user::{AuthError, User};

fn config(mode: AuthMode) -> AuthConfig {
    AuthConfig {
        mode,
        callback_url: None,
        username_header: "x-tobira-username".to_string(),
        display_name_header: "x-tobira-user-display-name".to_string(),
        email_header: "x-tobira-user-email".to_string(),
        roles_header: "x-tobira-user-roles".to_string(),
        moderator_role: "ROLE_TOBIRA_MODERATOR".to_string(),
        upload_role: "ROLE_TOBIRA_UPLOAD".to_string(),
        studio_role: "ROLE_TOBIRA_STUDIO".to_string(),
        editor_role: "ROLE_TOBIRA_EDITOR".to_string(),
        user_realm_role: "ROLE_USER".to_string(),
        user_role_prefixes: vec!["ROLE_USER_".to_string()],
        session_duration_ms: 1000,
        trusted_external_key: None,
    }
}

fn strings(v: &[&str]) -> Vec<String> {
    v.iter().map(|s| s.to_string()).collect()
}

fn bob() -> User {
    User::from_parts(
        "bob".to_string(),
        "Bob".to_string(),
        None,
        strings(&["ROLE_USER_BOB"]),
        &strings(&["ROLE_USER_"]),
    )
    .unwrap()
}

#[test]
fn single_user_role_is_found() {
    let roles = strings(&["ROLE_ANONYMOUS", "ROLE_STAFF", "ROLE_USER_ALICE", "ROLE_X"]);
    assert_eq!(find_user_role(&roles, &strings(&["ROLE_USER_"])), Some(2));
    assert_eq!(find_user_role(&roles, &strings(&["ROLE_NONE_"])), None);
    assert_eq!(find_user_role(&roles, &strings(&["ROLE_Q_", "ROLE_S"])), Some(1));
    assert_eq!(find_user_role(&Vec::new(), &strings(&["ROLE_USER_"])), None);
}

#[test]
fn prefix_check() {
    assert!(starts_with("ROLE_USER_ALICE", "ROLE_USER_"));
    assert!(starts_with("abc", ""));
    assert!(!starts_with("ROLE_USER", "ROLE_USER_"));
    assert!(!starts_with("ROLE_USEX_A", "ROLE_USER_"));
}

#[test]
fn admin_has_every_capability() {
    let cfg = config(AuthMode::NoAuth);
    let admin = strings(&["ROLE_ADMIN"]);
    assert!(is_admin(&admin));
    assert!(is_moderator(&admin, &cfg));
    assert!(can_upload(&admin, &cfg));
    assert!(can_use_studio(&admin, &cfg));
    assert!(can_use_editor(&admin, &cfg));
    assert!(!can_create_user_realm(&admin, &cfg));
    assert!(overlaps_roles(&admin, &strings(&["ROLE_NOBODY"])));
    assert!(require_moderator(&admin, &cfg).is_some());
}

#[test]
fn single_privilege_roles() {
    let cfg = config(AuthMode::NoAuth);
    let uploader = strings(&["ROLE_TOBIRA_UPLOAD", "ROLE_USER"]);
    assert!(!is_admin(&uploader));
    assert!(!is_moderator(&uploader, &cfg));
    assert!(can_upload(&uploader, &cfg));
    assert!(!can_use_studio(&uploader, &cfg));
    assert!(!can_use_editor(&uploader, &cfg));
    assert!(can_create_user_realm(&uploader, &cfg));
    assert!(required_upload_permission(&uploader, &cfg).is_some());
    assert!(required_studio_permission(&uploader, &cfg).is_none());
    assert!(required_editor_permission(&uploader, &cfg).is_none());
    assert!(require_moderator(&uploader, &cfg).is_none());

    let moderator = strings(&["ROLE_TOBIRA_MODERATOR"]);
    assert!(can_use_studio(&moderator, &cfg));
    assert!(can_use_editor(&moderator, &cfg));
    assert!(!can_create_user_realm(&moderator, &cfg));

    assert!(overlaps_roles(&uploader, &strings(&["ROLE_X", "ROLE_USER"])));
    assert!(!overlaps_roles(&uploader, &strings(&["ROLE_X"])));
    assert!(!overlaps_roles(&uploader, &Vec::new()));
}

#[test]
fn base64_round_trip() {
    for bytes in [vec![], vec![0u8], vec![0xfbu8, 0xff], b"hello world".to_vec(), (0u8..=255).collect()] {
        let text = base64::engine::general_purpose::URL_SAFE.encode(&bytes);
        assert_eq!(base64decode(text.as_bytes()), Some(bytes));
    }
    assert_eq!(base64decode(b"YWxpY2U="), Some(b"alice".to_vec()));
    assert_eq!(base64decode(b"YWxpY2U"), None);
    assert_eq!(base64decode(b"+/8="), None);
    assert_eq!(base64decode(b"-_8="), Some(vec![0xfb, 0xff]));
}

#[test]
fn session_ids_are_base64_of_random_bytes() {
    let random = [7u8; SESSION_ID_BYTES];
    let id = new_session_id(&random);
    assert_eq!(id, "BwcHBwcHBwcHBwcHBwcHBwcH");
    assert_eq!(base64decode(id.as_bytes()), Some(random.to_vec()));
}

#[test]
fn header_text_decoding() {
    assert_eq!(decode_header_text(b"QWxpY2U="), Some("Alice".to_string()));
    assert_eq!(decode_header_text(b"w6k="), Some("\u{e9}".to_string()));
    assert_eq!(decode_header_text(b"__4="), None);
    assert_eq!(decode_header_text(b"%%%"), None);
}

#[test]
fn comma_splitting() {
    assert_eq!(split_at_commas("a,b,,c"), vec!["a", "b", "", "c"]);
    assert_eq!(split_at_commas(""), vec![""]);
    assert_eq!(split_at_commas(" x ,y"), vec![" x ", "y"]);
}

#[test]
fn mode_labels() {
    assert_eq!(AuthMode::NoAuth.label(), "none");
    assert_eq!(AuthMode::FullAuthProxy.label(), "full-auth-proxy");
    assert_eq!(AuthMode::LoginProxy.label(), "login-proxy");
    assert_eq!(AuthMode::AuthCallback.label(), "auth-callback");
    assert_eq!(AuthMode::LoginCallback.label(), "login-callback");
    assert_eq!(AuthMode::Opencast.label(), "opencast");
}

#[test]
fn config_validation() {
    let url = CallbackUrl { scheme: "https".to_string(), authority: "auth.example".to_string(), path: "/cb".to_string() };
    let mut cfg = config(AuthMode::AuthCallback);
    assert_eq!(cfg.validate(), Err(ConfigError::CallbackUrlMissing(AuthMode::AuthCallback)));
    cfg.callback_url = Some(url.clone());
    assert_eq!(cfg.validate(), Ok(()));
    cfg.mode = AuthMode::LoginCallback;
    assert_eq!(cfg.validate(), Ok(()));
    cfg.mode = AuthMode::LoginProxy;
    assert_eq!(cfg.validate(), Err(ConfigError::CallbackUrlUnexpected(AuthMode::LoginProxy)));
    cfg.callback_url = None;
    assert_eq!(cfg.validate(), Ok(()));
}

#[test]
fn callback_url_parsing() {
    let ok = parse_callback_url("https://auth.example:8443/check").unwrap();
    assert_eq!(ok.scheme, "https");
    assert_eq!(ok.authority, "auth.example:8443");
    assert_eq!(ok.path, "/check");
    assert_eq!(parse_callback_url("not a url").unwrap_err(), ConfigError::InvalidUrl);
    assert_eq!(parse_callback_url("https://a.example/x?y=1").unwrap_err(), ConfigError::UrlHasQueryOrFragment);
    assert_eq!(parse_callback_url("https://a.example/x#frag").unwrap_err(), ConfigError::UrlHasQueryOrFragment);
}

#[test]
fn session_age_boundaries() {
    assert!(is_live(0, 999, 1000));
    assert!(!is_live(0, 1000, 1000));
    assert!(!is_expired(0, 1000, 1000));
    assert!(is_expired(0, 1001, 1000));
    assert!(is_live(i64::MAX, i64::MIN, 0));
    assert!(!is_live(i64::MIN, i64::MAX, u64::MAX));
    assert!(is_live(i64::MIN + 1, i64::MAX, u64::MAX));
}

#[test]
fn session_store_lifecycle() {
    let mut store = SessionStore::new();
    let user = bob();
    assert_eq!(store.create_session(&user, "id-1".to_string(), 0), Ok(()));
    assert_eq!(store.create_session(&user, "id-1".to_string(), 5), Err(AuthError::InternalError));
    assert_eq!(store.create_session(&user, "id-2".to_string(), 500), Ok(()));
    assert_eq!(store.sessions.len(), 2);

    assert_eq!(store.lookup(&"id-1".to_string(), 999, 1000), Some(0));
    assert_eq!(store.lookup(&"id-1".to_string(), 1000, 1000), None);
    assert_eq!(store.lookup(&"id-3".to_string(), 0, 1000), None);

    assert_eq!(store.purge_expired(1000, 1000), 0);
    assert_eq!(store.purge_expired(1001, 1000), 1);
    assert_eq!(store.sessions.len(), 1);
    assert_eq!(store.sessions[0].id, "id-2");
    assert_eq!(store.lookup(&"id-2".to_string(), 1001, 1000), Some(0));
    assert_eq!(store.sessions[0].username, "bob");
    assert_eq!(store.sessions[0].roles, vec!["ROLE_USER_BOB"]);
}

#[test]
fn user_from_parts_dedups_roles() {
    let u = User::from_parts(
        "dan".to_string(),
        "Dan".to_string(),
        Some("d@example.org".to_string()),
        strings(&["ROLE_A", "ROLE_USER_DAN", "ROLE_A"]),
        &strings(&["ROLE_USER_"]),
    )
    .unwrap();
    assert_eq!(u.roles, vec!["ROLE_A", "ROLE_USER_DAN"]);
    assert_eq!(u.user_role, "ROLE_USER_DAN");
}

#[test]
fn user_cache_writes_when_due() {
    let mut cache = tobira_auth::cache::UserCache::new();
    let user = bob();
    assert!(cache.note_seen(&user, 0, 1000));
    assert!(!cache.note_seen(&user, 999, 1000));
    assert!(cache.note_seen(&user, 1000, 1000));
    assert_eq!(cache.entries.len(), 1);
    assert_eq!(cache.entries[0].written_ms, 1000);

    let mut renamed = bob();
    renamed.display_name = "Robert".to_string();
    assert!(cache.note_seen(&renamed, 1001, 1000));
    assert!(!cache.note_seen(&renamed, 1002, 1000));
    let mut mailed = bob();
    mailed.display_name = "Robert".to_string();
    mailed.email = Some("r@example.org".to_string());
    assert!(cache.note_seen(&mailed, 1003, 1000));
    assert_eq!(cache.entries.len(), 1);

    let other = User::from_parts(
        "eve".to_string(),
        "Eve".to_string(),
        None,
        strings(&["ROLE_USER_EVE"]),
        &strings(&["ROLE_USER_"]),
    )
    .unwrap();
    assert!(cache.note_seen(&other, 1004, 1000));
    assert_eq!(cache.entries.len(), 2);
}

#[test]
fn header_roles_trim_unicode_white_space() {
    let cfg = config(AuthMode::FullAuthProxy);
    let roles = "\u{3000}ROLE_USER_ALICE\t,\u{a0}ROLE_B\u{2029}";
    let headers = vec![
        tobira_auth::headers::Header {
            name: "x-tobira-username".to_string(),
            value: base64::engine::general_purpose::URL_SAFE.encode("alice").into_bytes(),
        },
        tobira_auth::headers::Header {
            name: "x-tobira-user-display-name".to_string(),
            value: base64::engine::general_purpose::URL_SAFE.encode("Alice").into_bytes(),
        },
        tobira_auth::headers::Header {
            name: "x-tobira-user-roles".to_string(),
            value: base64::engine::general_purpose::URL_SAFE.encode(roles).into_bytes(),
        },
    ];
    let u = User::from_auth_headers(&headers, &cfg).unwrap();
    assert_eq!(u.roles, vec!["ROLE_ANONYMOUS", "ROLE_USER_ALICE", "ROLE_B"]);
}

#[test]
fn session_ids_of_any_length() {
    assert_eq!(new_session_id(&[]), "");
    assert_eq!(new_session_id(&[0xfb, 0xff]), "-_8=");
}

#[test]
fn user_cache_keeps_other_entries() {
    let mut cache = tobira_auth::cache::UserCache::new();
    let first = bob();
    let second = User::from_parts(
        "eve".to_string(),
        "Eve".to_string(),
        None,
        strings(&["ROLE_USER_EVE"]),
        &strings(&["ROLE_USER_"]),
    )
    .unwrap();
    assert!(cache.note_seen(&first, 0, 1000));
    assert!(cache.note_seen(&second, 1, 1000));
    assert!(cache.note_seen(&first, 5000, 1000));
    assert_eq!(cache.entries.len(), 2);
    assert_eq!(cache.entries[1].username, "eve");
    assert_eq!(cache.entries[1].written_ms, 1);
    assert_eq!(cache.entries[0].written_ms, 5000);
}

#[test]
fn callback_url_accepts_plain_urls() {
    let ok = parse_callback_url("http://localhost/auth").unwrap();
    assert_eq!(ok.scheme, "http");
    assert_eq!(ok.authority, "localhost");
    assert_eq!(ok.path, "/auth");
}
