use vstd::prelude::*;
use vstd::utf8::encode_utf8;
use crate::callback::{callback_outcome, CallbackResponse};
use crate::config::{AuthConfig, AuthMode};
use crate::headers::{header_user, header_value, is_trusted_external, Header, TRUSTED_KEY_HEADER};
use crate::session::{
    distinct_ids, is_live, is_live_spec, lemma_retrievable_iff_young, retrievable, session_cookie, session_id_from_headers,
    session_user, Session, SessionStore,
};
use crate::user::{AuthContext, AuthError, User, UserView};

verus! {

/// The request carries the configured trusted-outside key.
pub open spec fn trusted_request(headers: Seq<Header>, key: Option<String>) -> bool {
    key is Some && header_value(headers, TRUSTED_KEY_HEADER@) == Some(encode_utf8(key->Some_0@))
}

/// The first step of resolving a request: either the answer, or the outside
/// work that the answer waits for.
#[derive(Debug)]
pub enum Resolution {
    /// The identity is known.
    Done(AuthContext),
    /// Look up the session with this identifier, then call `finish_session`.
    LookupSession(String),
    /// Ask the callback endpoint, then call `finish_callback`.
    AskCallback,
}

/// What the session store answered.
#[derive(Debug)]
pub enum SessionLookup {
    /// The store failed.
    Failed,
    /// No session has the identifier.
    Missing,
    /// The session with the identifier.
    Found(Session),
}

impl AuthContext {
    /// Starts to resolve a request. A request that carries the configured
    /// trusted-outside key is trusted at once. Otherwise the mode decides:
    /// no authentication gives anonymity, the proxy headers give their user
    /// or anonymity, the session modes ask for the session in the cookie (or
    /// give anonymity without one), and the callback mode asks the endpoint.
    pub fn begin(headers: &Vec<Header>, cfg: &AuthConfig) -> (r: Resolution)
        ensures
            trusted_request(headers@, cfg.trusted_external_key) ==> (r matches Resolution::Done(
                AuthContext::TrustedExternal,
            )),
            !trusted_request(headers@, cfg.trusted_external_key) ==> match cfg.mode {
                AuthMode::NoAuth => r matches Resolution::Done(AuthContext::Anonymous),
                AuthMode::FullAuthProxy => match header_user(headers@, *cfg) {
                    Some(v) => (r matches Resolution::Done(AuthContext::User(u)) && u@ == v
                        && u.wf(cfg.user_role_prefixes@)),
                    None => r matches Resolution::Done(AuthContext::Anonymous),
                },
                AuthMode::AuthCallback => r is AskCallback,
                _ => match session_cookie(headers@) {
                    Some(id) => (r matches Resolution::LookupSession(s) && s@ == id),
                    None => r matches Resolution::Done(AuthContext::Anonymous),
                },
            },
    {
        if is_trusted_external(headers, &cfg.trusted_external_key) {
            return Resolution::Done(AuthContext::TrustedExternal);
        }
        match cfg.mode {
            AuthMode::NoAuth => Resolution::Done(AuthContext::Anonymous),
            AuthMode::FullAuthProxy => match User::from_auth_headers(headers, cfg) {
                Some(u) => Resolution::Done(AuthContext::User(u)),
                None => Resolution::Done(AuthContext::Anonymous),
            },
            AuthMode::AuthCallback => Resolution::AskCallback,
            AuthMode::LoginProxy | AuthMode::Opencast | AuthMode::LoginCallback => {
                match session_id_from_headers(headers) {
                    Some(id) => Resolution::LookupSession(id),
                    None => Resolution::Done(AuthContext::Anonymous),
                }
            },
        }
    }

    /// Finishes a request of a session mode with what the store answered for
    /// session `id` at `now_ms`. A store failure is an internal error; a
    /// missing, foreign or expired session gives anonymity; a valid one its
    /// user, or an error where its roles hold no user role.
    pub fn finish_session(lookup: SessionLookup, id: &String, now_ms: i64, cfg: &AuthConfig) -> (r: Result<
        AuthContext,
        AuthError,
    >)
        ensures
            match lookup {
                SessionLookup::Failed => r == Err::<AuthContext, AuthError>(AuthError::InternalError),
                SessionLookup::Missing => r matches Ok(AuthContext::Anonymous),
                SessionLookup::Found(s) => if s.id@ != id@ || !is_live_spec(
                    s.created_ms as int,
                    now_ms as int,
                    cfg.session_duration_ms as int,
                ) {
                    r matches Ok(AuthContext::Anonymous)
                } else {
                    match session_user(s, cfg.user_role_prefixes@) {
                        Some(v) => (r matches Ok(AuthContext::User(u)) && u@ == v && u.wf(cfg.user_role_prefixes@)),
                        None => r == Err::<AuthContext, AuthError>(AuthError::MissingUserRole),
                    }
                },
            },
    {
        match lookup {
            SessionLookup::Failed => Err(AuthError::InternalError),
            SessionLookup::Missing => Ok(AuthContext::Anonymous),
            SessionLookup::Found(s) => {
                if s.id != *id || !is_live(s.created_ms, now_ms, cfg.session_duration_ms) {
                    return Ok(AuthContext::Anonymous);
                }
                match s.to_user(&cfg.user_role_prefixes) {
                    Ok(u) => Ok(AuthContext::User(u)),
                    Err(e) => Err(e),
                }
            },
        }
    }

    /// Finishes a request of the callback mode with the endpoint's answer;
    /// `None` stands for a call that failed before an answer came.
    pub fn finish_callback(response: Option<CallbackResponse>, cfg: &AuthConfig) -> (r: Result<AuthContext, AuthError>)
        ensures
            match callback_outcome(response, cfg.user_role_prefixes@) {
                Ok(Some(v)) => (r matches Ok(AuthContext::User(u)) && u@ == v && u.wf(cfg.user_role_prefixes@)),
                Ok(None) => r matches Ok(AuthContext::Anonymous),
                Err(e) => r == Err::<AuthContext, AuthError>(e),
            },
    {
        match User::from_callback(response, &cfg.user_role_prefixes) {
            Ok(Some(u)) => Ok(AuthContext::User(u)),
            Ok(None) => Ok(AuthContext::Anonymous),
            Err(e) => Err(e),
        }
    }
}

/// The outcome of resolving a request, as plain values.
pub enum Outcome {
    Anonymous,
    TrustedExternal,
    Identified(UserView),
    Failed(AuthError),
}

/// The outcome that a resolution result stands for.
pub open spec fn outcome_of(r: Result<AuthContext, AuthError>) -> Outcome {
    match r {
        Ok(AuthContext::Anonymous) => Outcome::Anonymous,
        Ok(AuthContext::TrustedExternal) => Outcome::TrustedExternal,
        Ok(AuthContext::User(u)) => Outcome::Identified(u@),
        Err(e) => Outcome::Failed(e),
    }
}

/// The outcome of a known user, or of reported roles without a user role.
pub open spec fn identified(v: Option<UserView>) -> Outcome {
    match v {
        Some(u) => Outcome::Identified(u),
        None => Outcome::Failed(AuthError::MissingUserRole),
    }
}

/// The outcome that the session `id` gives at `now`.
pub open spec fn session_outcome(sessions: Seq<Session>, id: Seq<char>, now: int, cfg: AuthConfig) -> Outcome {
    if retrievable(sessions, id, now, cfg.session_duration_ms as int) {
        let i = choose|i: int|
            0 <= i < sessions.len() && #[trigger] sessions[i].id@ == id
                && is_live_spec(sessions[i].created_ms as int, now, cfg.session_duration_ms as int);
        identified(session_user(sessions[i], cfg.user_role_prefixes@))
    } else {
        Outcome::Anonymous
    }
}

/// How the configured mode resolves a request that is not trusted.
pub open spec fn mode_outcome(
    headers: Seq<Header>,
    cfg: AuthConfig,
    sessions: Seq<Session>,
    now: int,
    callback: Option<CallbackResponse>,
) -> Outcome {
    match cfg.mode {
        AuthMode::NoAuth => Outcome::Anonymous,
        AuthMode::FullAuthProxy => match header_user(headers, cfg) {
            Some(v) => Outcome::Identified(v),
            None => Outcome::Anonymous,
        },
        AuthMode::AuthCallback => match callback_outcome(callback, cfg.user_role_prefixes@) {
            Ok(Some(v)) => Outcome::Identified(v),
            Ok(None) => Outcome::Anonymous,
            Err(e) => Outcome::Failed(e),
        },
        _ => match session_cookie(headers) {
            Some(id) => session_outcome(sessions, id, now, cfg),
            None => Outcome::Anonymous,
        },
    }
}

/// How a request is resolved: a trusted request at once, any other by the mode.
pub open spec fn resolve_outcome(
    headers: Seq<Header>,
    cfg: AuthConfig,
    sessions: Seq<Session>,
    now: int,
    callback: Option<CallbackResponse>,
) -> Outcome {
    if trusted_request(headers, cfg.trusted_external_key) {
        Outcome::TrustedExternal
    } else {
        mode_outcome(headers, cfg, sessions, now, callback)
    }
}

impl AuthContext {
    /// Resolves a request against the session store `store` at `now_ms`;
    /// `callback` is what the callback endpoint answered for this request
    /// (`None`: the call failed), read only in the callback mode.
    pub fn new(
        headers: &Vec<Header>,
        cfg: &AuthConfig,
        store: &SessionStore,
        now_ms: i64,
        callback: Option<CallbackResponse>,
    ) -> (r: Result<AuthContext, AuthError>)
        requires
            store.wf(),
        ensures
            outcome_of(r) == resolve_outcome(headers@, *cfg, store.sessions@, now_ms as int, callback),
            r matches Ok(AuthContext::User(u)) ==> u.wf(cfg.user_role_prefixes@),
    {
        match AuthContext::begin(headers, cfg) {
            Resolution::Done(ctx) => Ok(ctx),
            Resolution::AskCallback => AuthContext::finish_callback(callback, cfg),
            Resolution::LookupSession(id) => {
                match store.lookup(&id, now_ms, cfg.session_duration_ms) {
                    None => Ok(AuthContext::Anonymous),
                    Some(i) => {
                        let ghost sessions = store.sessions@;
                        let ghost dur = cfg.session_duration_ms as int;
                        proof {
                            let j = choose|j: int|
                                0 <= j < sessions.len() && #[trigger] sessions[j].id@ == id@
                                    && is_live_spec(sessions[j].created_ms as int, now_ms as int, dur);
                            if j != i as int {
                                assert(sessions[j].id@ != sessions[i as int].id@);
                            }
                        }
                        match store.sessions[i].to_user(&cfg.user_role_prefixes) {
                            Ok(u) => Ok(AuthContext::User(u)),
                            Err(e) => Err(e),
                        }
                    },
                }
            },
        }
    }
}

/// A request that carries the configured trusted-outside key, byte for byte,
/// is trusted whatever the mode, and nothing else is consulted.
pub proof fn lemma_trusted_key_wins(
    headers: Seq<Header>,
    cfg: AuthConfig,
    sessions: Seq<Session>,
    now: int,
    callback: Option<CallbackResponse>,
)
    requires
        cfg.trusted_external_key is Some,
        header_value(headers, TRUSTED_KEY_HEADER@) == Some(encode_utf8(cfg.trusted_external_key->Some_0@)),
    ensures
        resolve_outcome(headers, cfg, sessions, now, callback) == Outcome::TrustedExternal,
{
}

/// Without a configured key, or with a key header that is absent or differs,
/// the request is resolved by the mode alone.
pub proof fn lemma_untrusted_falls_through(
    headers: Seq<Header>,
    cfg: AuthConfig,
    sessions: Seq<Session>,
    now: int,
    callback: Option<CallbackResponse>,
)
    requires
        cfg.trusted_external_key is None || header_value(headers, TRUSTED_KEY_HEADER@) != Some(
            encode_utf8(cfg.trusted_external_key->Some_0@),
        ),
    ensures
        resolve_outcome(headers, cfg, sessions, now, callback) == mode_outcome(headers, cfg, sessions, now, callback),
{
}

/// In a session mode, the session named by the cookie gives its user while
/// it is younger than the duration, and anonymity once it is not.
pub proof fn lemma_session_by_age(
    headers: Seq<Header>,
    cfg: AuthConfig,
    sessions: Seq<Session>,
    j: int,
    now: int,
    callback: Option<CallbackResponse>,
)
    requires
        cfg.mode == AuthMode::LoginProxy || cfg.mode == AuthMode::Opencast || cfg.mode == AuthMode::LoginCallback,
        !trusted_request(headers, cfg.trusted_external_key),
        distinct_ids(sessions),
        0 <= j < sessions.len(),
        session_cookie(headers) == Some(sessions[j].id@),
    ensures
        now - sessions[j].created_ms < cfg.session_duration_ms ==> resolve_outcome(headers, cfg, sessions, now, callback)
            == identified(session_user(sessions[j], cfg.user_role_prefixes@)),
        now - sessions[j].created_ms >= cfg.session_duration_ms ==> resolve_outcome(
            headers,
            cfg,
            sessions,
            now,
            callback,
        ) == Outcome::Anonymous,
{
    let dur = cfg.session_duration_ms as int;
    let id = sessions[j].id@;
    lemma_retrievable_iff_young(sessions, j, now, dur);
    if retrievable(sessions, id, now, dur) {
        let i = choose|i: int|
            0 <= i < sessions.len() && #[trigger] sessions[i].id@ == id
                && is_live_spec(sessions[i].created_ms as int, now, dur);
        if i != j {
            assert(sessions[i].id@ != sessions[j].id@);
        }
    }
}

} // verus!
