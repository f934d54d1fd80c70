use vstd::prelude::*;
use crate::config::AuthConfig;
use crate::roles::{contains_role, texts, ROLE_ADMIN};
use crate::user::{context_roles, AuthContext};

verus! {

/// A marker that proves that *some* authorization check passed.
///
/// It carries nothing about what was checked: its only purpose is that an
/// operation which asks for one cannot be called without a check. Its field is
/// private, so it is made only in this crate.
pub struct AuthToken {
    _private: (),
}

impl AuthToken {
    /// A token if `v` holds, else none.
    pub(crate) fn some_if(v: bool) -> (r: Option<AuthToken>)
        ensures
            r is Some <==> v,
    {
        if v {
            Some(AuthToken { _private: () })
        } else {
            None
        }
    }
}

pub open spec fn spec_is_admin(roles: Seq<Seq<char>>) -> bool {
    roles.contains(ROLE_ADMIN@)
}

pub open spec fn spec_is_moderator(roles: Seq<Seq<char>>, cfg: AuthConfig) -> bool {
    spec_is_admin(roles) || roles.contains(cfg.moderator_role@)
}

pub open spec fn spec_can_upload(roles: Seq<Seq<char>>, cfg: AuthConfig) -> bool {
    spec_is_moderator(roles, cfg) || roles.contains(cfg.upload_role@)
}

pub open spec fn spec_can_use_studio(roles: Seq<Seq<char>>, cfg: AuthConfig) -> bool {
    spec_is_moderator(roles, cfg) || roles.contains(cfg.studio_role@)
}

pub open spec fn spec_can_use_editor(roles: Seq<Seq<char>>, cfg: AuthConfig) -> bool {
    spec_is_moderator(roles, cfg) || roles.contains(cfg.editor_role@)
}

pub open spec fn spec_can_create_user_realm(roles: Seq<Seq<char>>, cfg: AuthConfig) -> bool {
    roles.contains(cfg.user_realm_role@)
}

/// Some role of `required` is in `roles`.
pub open spec fn shares_role(roles: Seq<Seq<char>>, required: Seq<Seq<char>>) -> bool {
    exists|i: int| 0 <= i < required.len() && roles.contains(#[trigger] required[i])
}

pub open spec fn spec_overlaps_roles(roles: Seq<Seq<char>>, required: Seq<Seq<char>>) -> bool {
    spec_is_admin(roles) || shares_role(roles, required)
}

/// Whether `roles` belong to a global administrator.
pub fn is_admin(roles: &Vec<String>) -> (r: bool)
    ensures
        r == spec_is_admin(texts(roles@)),
{
    let admin = ROLE_ADMIN.to_owned();
    contains_role(roles, &admin)
}

/// Administrators and holders of the moderator role are moderators.
pub fn is_moderator(roles: &Vec<String>, cfg: &AuthConfig) -> (r: bool)
    ensures
        r == spec_is_moderator(texts(roles@), *cfg),
{
    is_admin(roles) || contains_role(roles, &cfg.moderator_role)
}

pub fn can_upload(roles: &Vec<String>, cfg: &AuthConfig) -> (r: bool)
    ensures
        r == spec_can_upload(texts(roles@), *cfg),
{
    is_moderator(roles, cfg) || contains_role(roles, &cfg.upload_role)
}

pub fn can_use_studio(roles: &Vec<String>, cfg: &AuthConfig) -> (r: bool)
    ensures
        r == spec_can_use_studio(texts(roles@), *cfg),
{
    is_moderator(roles, cfg) || contains_role(roles, &cfg.studio_role)
}

pub fn can_use_editor(roles: &Vec<String>, cfg: &AuthConfig) -> (r: bool)
    ensures
        r == spec_can_use_editor(texts(roles@), *cfg),
{
    is_moderator(roles, cfg) || contains_role(roles, &cfg.editor_role)
}

/// Only the user-realm role grants a user realm; being a moderator does not.
pub fn can_create_user_realm(roles: &Vec<String>, cfg: &AuthConfig) -> (r: bool)
    ensures
        r == spec_can_create_user_realm(texts(roles@), *cfg),
{
    contains_role(roles, &cfg.user_realm_role)
}

/// Administrators, and holders of any of `required`.
pub fn overlaps_roles(roles: &Vec<String>, required: &Vec<String>) -> (r: bool)
    ensures
        r == spec_overlaps_roles(texts(roles@), texts(required@)),
{
    if is_admin(roles) {
        return true;
    }
    let mut i: usize = 0;
    while i < required.len()
        invariant
            i <= required@.len(),
            forall|k: int| 0 <= k < i ==> !texts(roles@).contains(#[trigger] texts(required@)[k]),
        decreases required.len() - i,
    {
        if contains_role(roles, &required[i]) {
            assert(texts(required@)[i as int] == required@[i as int]@);
            return true;
        }
        i = i + 1;
    }
    false
}

/// A token if `roles` belong to a moderator.
pub fn require_moderator(roles: &Vec<String>, cfg: &AuthConfig) -> (r: Option<AuthToken>)
    ensures
        r is Some <==> spec_is_moderator(texts(roles@), *cfg),
{
    AuthToken::some_if(is_moderator(roles, cfg))
}

/// A token if `roles` may upload.
pub fn required_upload_permission(roles: &Vec<String>, cfg: &AuthConfig) -> (r: Option<AuthToken>)
    ensures
        r is Some <==> spec_can_upload(texts(roles@), *cfg),
{
    AuthToken::some_if(can_upload(roles, cfg))
}

/// A token if `roles` may use the studio.
pub fn required_studio_permission(roles: &Vec<String>, cfg: &AuthConfig) -> (r: Option<AuthToken>)
    ensures
        r is Some <==> spec_can_use_studio(texts(roles@), *cfg),
{
    AuthToken::some_if(can_use_studio(roles, cfg))
}

/// A token if `roles` may use the editor.
pub fn required_editor_permission(roles: &Vec<String>, cfg: &AuthConfig) -> (r: Option<AuthToken>)
    ensures
        r is Some <==> spec_can_use_editor(texts(roles@), *cfg),
{
    AuthToken::some_if(can_use_editor(roles, cfg))
}

impl AuthContext {
    /// Whether this context belongs to a global administrator.
    pub fn is_admin(&self) -> (r: bool)
        ensures
            r == spec_is_admin(context_roles(*self)),
    {
        is_admin(&self.roles())
    }

    pub fn is_moderator(&self, cfg: &AuthConfig) -> (r: bool)
        ensures
            r == spec_is_moderator(context_roles(*self), *cfg),
    {
        is_moderator(&self.roles(), cfg)
    }

    pub fn can_upload(&self, cfg: &AuthConfig) -> (r: bool)
        ensures
            r == spec_can_upload(context_roles(*self), *cfg),
    {
        can_upload(&self.roles(), cfg)
    }

    pub fn can_use_studio(&self, cfg: &AuthConfig) -> (r: bool)
        ensures
            r == spec_can_use_studio(context_roles(*self), *cfg),
    {
        can_use_studio(&self.roles(), cfg)
    }

    pub fn can_use_editor(&self, cfg: &AuthConfig) -> (r: bool)
        ensures
            r == spec_can_use_editor(context_roles(*self), *cfg),
    {
        can_use_editor(&self.roles(), cfg)
    }

    pub fn can_create_user_realm(&self, cfg: &AuthConfig) -> (r: bool)
        ensures
            r == spec_can_create_user_realm(context_roles(*self), *cfg),
    {
        can_create_user_realm(&self.roles(), cfg)
    }

    pub fn overlaps_roles(&self, required: &Vec<String>) -> (r: bool)
        ensures
            r == spec_overlaps_roles(context_roles(*self), texts(required@)),
    {
        overlaps_roles(&self.roles(), required)
    }

    /// A token if this context is a moderator.
    pub fn require_moderator(&self, cfg: &AuthConfig) -> (r: Option<AuthToken>)
        ensures
            r is Some <==> spec_is_moderator(context_roles(*self), *cfg),
    {
        require_moderator(&self.roles(), cfg)
    }

    /// A token if this context may upload.
    pub fn required_upload_permission(&self, cfg: &AuthConfig) -> (r: Option<AuthToken>)
        ensures
            r is Some <==> spec_can_upload(context_roles(*self), *cfg),
    {
        required_upload_permission(&self.roles(), cfg)
    }

    /// A token if this context may use the studio.
    pub fn required_studio_permission(&self, cfg: &AuthConfig) -> (r: Option<AuthToken>)
        ensures
            r is Some <==> spec_can_use_studio(context_roles(*self), *cfg),
    {
        required_studio_permission(&self.roles(), cfg)
    }

    /// A token if this context may use the editor.
    pub fn required_editor_permission(&self, cfg: &AuthConfig) -> (r: Option<AuthToken>)
        ensures
            r is Some <==> spec_can_use_editor(context_roles(*self), *cfg),
    {
        required_editor_permission(&self.roles(), cfg)
    }
}

/// An administrator is a moderator and may upload, use the studio and use the
/// editor, whatever other roles they hold.
pub proof fn lemma_admin_has_all_capabilities(roles: Seq<Seq<char>>, cfg: AuthConfig)
    requires
        spec_is_admin(roles),
    ensures
        spec_is_moderator(roles, cfg),
        spec_can_upload(roles, cfg),
        spec_can_use_studio(roles, cfg),
        spec_can_use_editor(roles, cfg),
{
}

} // verus!
