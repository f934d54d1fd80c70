use vstd::prelude::*;

verus! {

/// How requests are authenticated.
#[derive(Clone, Copy, Debug, PartialEq, Eq, Structural)]
pub enum AuthMode {
    NoAuth,
    FullAuthProxy,
    LoginProxy,
    AuthCallback,
    LoginCallback,
    Opencast,
}

/// The text that selects `mode` in a configuration file.
pub open spec fn mode_label(mode: AuthMode) -> Seq<char> {
    match mode {
        AuthMode::NoAuth => "none"@,
        AuthMode::FullAuthProxy => "full-auth-proxy"@,
        AuthMode::LoginProxy => "login-proxy"@,
        AuthMode::AuthCallback => "auth-callback"@,
        AuthMode::LoginCallback => "login-callback"@,
        AuthMode::Opencast => "opencast"@,
    }
}

/// The modes that ask an outside HTTP endpoint who the user is.
pub open spec fn is_callback_mode(mode: AuthMode) -> bool {
    mode == AuthMode::AuthCallback || mode == AuthMode::LoginCallback
}

/// The modes that read the user from a session cookie.
pub open spec fn is_session_mode(mode: AuthMode) -> bool {
    mode == AuthMode::LoginProxy || mode == AuthMode::Opencast || mode == AuthMode::LoginCallback
}

impl AuthMode {
    /// Returns the string that has to be specified in the config file to select
    /// this mode.
    pub fn label(&self) -> (r: &'static str)
        ensures
            r@ == mode_label(*self),
    {
        match self {
            AuthMode::NoAuth => "none",
            AuthMode::FullAuthProxy => "full-auth-proxy",
            AuthMode::LoginProxy => "login-proxy",
            AuthMode::AuthCallback => "auth-callback",
            AuthMode::LoginCallback => "login-callback",
            AuthMode::Opencast => "opencast",
        }
    }
}

/// The endpoint asked in the callback modes: scheme, authority and path of an
/// absolute URL without query or fragment.
#[derive(Clone, Debug)]
pub struct CallbackUrl {
    pub scheme: String,
    pub authority: String,
    pub path: String,
}

/// Authentication and authorization settings.
#[derive(Clone, Debug)]
pub struct AuthConfig {
    /// The mode of authentication.
    pub mode: AuthMode,
    /// Only for the callback modes: the endpoint that resolves a request to a user.
    pub callback_url: Option<CallbackUrl>,
    /// The header holding a unique and stable username.
    pub username_header: String,
    /// The header holding the human-readable name of the user.
    pub display_name_header: String,
    /// The header holding the email address of the user.
    pub email_header: String,
    /// The header holding a comma-separated list of the user's roles.
    pub roles_header: String,
    /// Holders of this role are moderators.
    pub moderator_role: String,
    /// Holders of this role may upload videos.
    pub upload_role: String,
    /// Holders of this role may use the recording studio.
    pub studio_role: String,
    /// Holders of this role may use the video editor.
    pub editor_role: String,
    /// Holders of this role may create their own user realm.
    pub user_realm_role: String,
    /// Prefixes that tell a user role from the other roles.
    pub user_role_prefixes: Vec<String>,
    /// How long a session lasts, in milliseconds.
    pub session_duration_ms: u64,
    /// A shared secret for trusted outside applications.
    pub trusted_external_key: Option<String>,
}

/// Why a configuration was refused.
#[derive(Clone, Copy, Debug, PartialEq, Eq, Structural)]
pub enum ConfigError {
    /// The mode asks an endpoint, but none is configured.
    CallbackUrlMissing(AuthMode),
    /// An endpoint is configured, but the mode never asks one.
    CallbackUrlUnexpected(AuthMode),
    /// The endpoint is not a valid URL.
    InvalidUrl,
    /// The endpoint holds a query or a fragment.
    UrlHasQueryOrFragment,
}

impl AuthConfig {
    /// Checks that a callback URL is configured exactly in the callback modes.
    pub fn validate(&self) -> (r: Result<(), ConfigError>)
        ensures
            is_callback_mode(self.mode) && self.callback_url is None
                <==> r == Err::<(), ConfigError>(ConfigError::CallbackUrlMissing(self.mode)),
            !is_callback_mode(self.mode) && self.callback_url is Some
                <==> r == Err::<(), ConfigError>(ConfigError::CallbackUrlUnexpected(self.mode)),
            r is Ok <==> (is_callback_mode(self.mode) <==> self.callback_url is Some),
    {
        let cb_mode = matches!(self.mode, AuthMode::LoginCallback | AuthMode::AuthCallback);
        if cb_mode && self.callback_url.is_none() {
            return Err(ConfigError::CallbackUrlMissing(self.mode));
        }
        if !cb_mode && self.callback_url.is_some() {
            return Err(ConfigError::CallbackUrlUnexpected(self.mode));
        }
        Ok(())
    }
}

/// The parts of a parsed URL that the callback endpoint needs.
#[derive(Clone, Debug)]
pub struct UrlParts {
    pub scheme: String,
    pub authority: String,
    pub path: String,
    pub query: Option<String>,
    pub fragment: Option<String>,
}

/// The text of an optional string.
pub open spec fn opt_text(s: Option<String>) -> Option<Seq<char>> {
    match s {
        Some(t) => Some(t@),
        None => None,
    }
}

/// The parts of a `UrlParts` as texts: scheme, authority, path, query, fragment.
pub open spec fn parts_text(p: UrlParts) -> (Seq<char>, Seq<char>, Seq<char>, Option<Seq<char>>, Option<Seq<char>>) {
    (p.scheme@, p.authority@, p.path@, opt_text(p.query), opt_text(p.fragment))
}

/// What the URL parser makes of `s`: scheme, authority, path, query and
/// fragment, or nothing where `s` is no valid absolute URL.
pub uninterp spec fn url_parts_of(s: Seq<char>) -> Option<(Seq<char>, Seq<char>, Seq<char>, Option<Seq<char>>, Option<Seq<char>>)>;

/// Relies on `url::Url::parse` and its accessors `scheme`, `authority`,
/// `path`, `query` and `fragment`: the parts of the URL, or nothing where
/// parsing fails.
#[verifier::external_body]
fn parse_url(s: &str) -> (r: Option<UrlParts>)
    ensures
        match r {
            Some(p) => url_parts_of(s@) == Some(parts_text(p)),
            None => url_parts_of(s@) is None,
        },
{
    url::Url::parse(s).ok().map(|u| UrlParts {
        scheme: u.scheme().to_owned(),
        authority: u.authority().to_owned(),
        path: u.path().to_owned(),
        query: u.query().map(|q| q.to_owned()),
        fragment: u.fragment().map(|f| f.to_owned()),
    })
}

/// Takes a parsed URL as the callback endpoint: refused where it holds a
/// query or a fragment, else its scheme, authority and path.
pub fn callback_url_from_parts(p: UrlParts) -> (r: Result<CallbackUrl, ConfigError>)
    ensures
        p.query is Some || p.fragment is Some <==> r == Err::<CallbackUrl, ConfigError>(
            ConfigError::UrlHasQueryOrFragment,
        ),
        r matches Ok(c) ==> c.scheme@ == p.scheme@ && c.authority@ == p.authority@ && c.path@ == p.path@,
        r is Ok || r == Err::<CallbackUrl, ConfigError>(ConfigError::UrlHasQueryOrFragment),
{
    if p.query.is_some() || p.fragment.is_some() {
        return Err(ConfigError::UrlHasQueryOrFragment);
    }
    Ok(CallbackUrl { scheme: p.scheme, authority: p.authority, path: p.path })
}

/// Reads the configured callback endpoint: a valid URL without query and
/// fragment.
pub fn parse_callback_url(s: &str) -> (r: Result<CallbackUrl, ConfigError>)
    ensures
        url_parts_of(s@) is None <==> r == Err::<CallbackUrl, ConfigError>(ConfigError::InvalidUrl),
        (url_parts_of(s@) matches Some(t) && (t.3 is Some || t.4 is Some))
            <==> r == Err::<CallbackUrl, ConfigError>(ConfigError::UrlHasQueryOrFragment),
        (url_parts_of(s@) matches Some(t) && t.3 is None && t.4 is None) ==> r is Ok,
        r is Ok || r == Err::<CallbackUrl, ConfigError>(ConfigError::InvalidUrl)
            || r == Err::<CallbackUrl, ConfigError>(ConfigError::UrlHasQueryOrFragment),
        r matches Ok(c) ==> url_parts_of(s@) == Some((c.scheme@, c.authority@, c.path@, None::<Seq<char>>, None::<Seq<char>>)),
{
    match parse_url(s) {
        None => Err(ConfigError::InvalidUrl),
        Some(p) => callback_url_from_parts(p),
    }
}

} // verus!
