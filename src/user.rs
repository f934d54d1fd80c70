use vstd::prelude::*;
use crate::config::opt_text;
use crate::roles::{distinct_roles, find_user_role, first_user_role, is_user_role, texts, ROLE_ADMIN, ROLE_ANONYMOUS};

verus! {

/// Data about a user.
#[derive(Debug)]
pub struct User {
    pub username: String,
    pub display_name: String,
    pub email: Option<String>,
    pub roles: Vec<String>,
    pub user_role: String,
}

/// What a `User` holds, as plain texts.
pub struct UserView {
    pub username: Seq<char>,
    pub display_name: Seq<char>,
    pub email: Option<Seq<char>>,
    pub roles: Seq<Seq<char>>,
    pub user_role: Seq<char>,
}

impl View for User {
    type V = UserView;

    open spec fn view(&self) -> UserView {
        UserView {
            username: self.username@,
            display_name: self.display_name@,
            email: opt_text(self.email),
            roles: texts(self.roles@),
            user_role: self.user_role@,
        }
    }
}

impl User {
    /// The roles form a set and the user role is the first of them that
    /// carries one of `prefixes`.
    pub open spec fn wf(&self, prefixes: Seq<String>) -> bool {
        distinct_roles(self.roles@) && first_user_role(texts(self.roles@), prefixes) == Some(self.user_role@)
    }
}

/// `new` added to `acc`, each role that `acc` lacks at its end, in order.
pub open spec fn with_roles(acc: Seq<Seq<char>>, new: Seq<Seq<char>>) -> Seq<Seq<char>>
    decreases new.len(),
{
    if new.len() == 0 {
        acc
    } else {
        with_roles(if acc.contains(new[0]) { acc } else { acc.push(new[0]) }, new.drop_first())
    }
}

/// Adds `role` to `roles` unless it is there already.
pub fn insert_role(roles: &mut Vec<String>, role: String)
    requires
        distinct_roles(old(roles)@),
    ensures
        distinct_roles(final(roles)@),
        texts(final(roles)@) == if texts(old(roles)@).contains(role@) {
            texts(old(roles)@)
        } else {
            texts(old(roles)@).push(role@)
        },
{
    let mut i: usize = 0;
    while i < roles.len()
        invariant
            i <= roles@.len(),
            roles@ == old(roles)@,
            distinct_roles(roles@),
            forall|k: int| 0 <= k < i ==> roles@[k]@ != role@,
        decreases roles.len() - i,
    {
        if roles[i] == role {
            assert(texts(roles@)[i as int] == role@);
            return;
        }
        i = i + 1;
    }
    assert(!texts(roles@).contains(role@)) by {
        if texts(roles@).contains(role@) {
            let k = choose|k: int| 0 <= k < texts(roles@).len() && texts(roles@)[k] == role@;
            assert(roles@[k]@ == role@);
        }
    }
    roles.push(role);
    assert(texts(roles@) =~= texts(old(roles)@).push(role@));
}

/// Why a request could not be resolved to an identity.
#[derive(Clone, Copy, Debug, PartialEq, Eq, Structural)]
pub enum AuthError {
    /// The callback endpoint failed, answered other than 200, or sent a body
    /// that does not parse.
    BadGateway,
    /// The session store failed.
    InternalError,
    /// A user from a session or the callback has no user role.
    MissingUserRole,
}

/// The role list `roles` as a set: each role once, in order of first occurrence.
pub open spec fn dedup_roles(roles: Seq<Seq<char>>) -> Seq<Seq<char>> {
    with_roles(Seq::<Seq<char>>::empty(), roles)
}

/// Each role of `roles` once, in order of first occurrence.
pub fn dedup_role_list(roles: Vec<String>) -> (r: Vec<String>)
    ensures
        distinct_roles(r@),
        texts(r@) == dedup_roles(texts(roles@)),
{
    let ghost new = texts(roles@);
    let mut out: Vec<String> = Vec::new();
    assert(texts(out@) =~= Seq::<Seq<char>>::empty());
    assert(new.subrange(0, new.len() as int) =~= new);
    let mut i: usize = 0;
    while i < roles.len()
        invariant
            i <= roles@.len(),
            new == texts(roles@),
            distinct_roles(out@),
            dedup_roles(new) == with_roles(texts(out@), new.subrange(i as int, new.len() as int)),
        decreases roles.len() - i,
    {
        let role = roles[i].clone();
        insert_role(&mut out, role);
        assert(new.subrange(i as int, new.len() as int).drop_first()
            =~= new.subrange(i + 1, new.len() as int));
        i = i + 1;
    }
    assert(new.subrange(i as int, new.len() as int) =~= Seq::<Seq<char>>::empty());
    out
}

/// The user that stored or reported fields describe, if the roles hold a
/// user role.
pub open spec fn identity_user(
    username: Seq<char>,
    display_name: Seq<char>,
    email: Option<Seq<char>>,
    roles: Seq<Seq<char>>,
    prefixes: Seq<String>,
) -> Option<UserView> {
    match first_user_role(dedup_roles(roles), prefixes) {
        Some(user_role) => Some(UserView { username, display_name, email, roles: dedup_roles(roles), user_role }),
        None => None,
    }
}

impl User {
    /// Builds a user from the fields of a session or of a callback answer.
    /// Roles without a user role are an error, never a crash.
    pub fn from_parts(
        username: String,
        display_name: String,
        email: Option<String>,
        roles: Vec<String>,
        prefixes: &Vec<String>,
    ) -> (r: Result<User, AuthError>)
        ensures
            match r {
                Ok(u) => identity_user(username@, display_name@, opt_text(email), texts(roles@), prefixes@)
                    == Some(u@) && u.wf(prefixes@),
                Err(e) => e == AuthError::MissingUserRole
                    && identity_user(username@, display_name@, opt_text(email), texts(roles@), prefixes@) is None,
            },
    {
        let roles = dedup_role_list(roles);
        match find_user_role(&roles, prefixes) {
            None => Err(AuthError::MissingUserRole),
            Some(i) => {
                let user_role = roles[i].clone();
                Ok(User { username, display_name, email, roles, user_role })
            },
        }
    }
}

/// Information about whether, and if so how, whoever talks to the server is
/// authenticated.
#[derive(Debug)]
pub enum AuthContext {
    Anonymous,
    TrustedExternal,
    User(User),
}

/// The fixed roles of a context without a user.
pub open spec fn context_roles(ctx: AuthContext) -> Seq<Seq<char>> {
    match ctx {
        AuthContext::Anonymous => seq![ROLE_ANONYMOUS@],
        AuthContext::TrustedExternal => seq![ROLE_ADMIN@],
        AuthContext::User(u) => texts(u.roles@),
    }
}

impl AuthContext {
    /// Returns `true` if this is a normally authenticated user. Usually,
    /// roles should be checked instead.
    pub fn is_user(&self) -> (r: bool)
        ensures
            r == (*self is User),
    {
        matches!(self, AuthContext::User(_))
    }

    /// The roles of this context: those of the user, or a fixed set.
    pub fn roles(&self) -> (r: Vec<String>)
        ensures
            texts(r@) == context_roles(*self),
    {
        match self {
            AuthContext::Anonymous => {
                let r = vec![ROLE_ANONYMOUS.to_owned()];
                assert(texts(r@) =~= seq![ROLE_ANONYMOUS@]);
                r
            },
            AuthContext::TrustedExternal => {
                let r = vec![ROLE_ADMIN.to_owned()];
                assert(texts(r@) =~= seq![ROLE_ADMIN@]);
                r
            },
            AuthContext::User(u) => {
                let r = u.roles.clone();
                assert(texts(r@) =~= texts(u.roles@));
                r
            },
        }
    }

    /// A form of the optional username that is fit for logs.
    pub fn debug_log_username(&self) -> (r: String)
        ensures
            r@ == match *self {
                AuthContext::Anonymous => "anonymous"@,
                AuthContext::TrustedExternal => "trusted external"@,
                AuthContext::User(u) => seq!['\''] + u.username@ + seq!['\''],
            },
    {
        match self {
            AuthContext::Anonymous => "anonymous".to_owned(),
            AuthContext::TrustedExternal => "trusted external".to_owned(),
            AuthContext::User(u) => {
                let mut s = "'".to_owned();
                s.append(u.username.as_str());
                s.append("'");
                proof {
                    reveal_strlit("'");
                }
                assert(s@ =~= seq!['\''] + u.username@ + seq!['\'']);
                s
            },
        }
    }
}

/// Every role of `with_roles(acc, new)` comes from `acc` or from `new`.
pub proof fn lemma_with_roles_from(acc: Seq<Seq<char>>, new: Seq<Seq<char>>, x: Seq<char>)
    requires
        with_roles(acc, new).contains(x),
    ensures
        acc.contains(x) || new.contains(x),
    decreases new.len(),
{
    if new.len() > 0 {
        let next = if acc.contains(new[0]) { acc } else { acc.push(new[0]) };
        lemma_with_roles_from(next, new.drop_first(), x);
        if next.contains(x) && !acc.contains(x) {
            let k = choose|k: int| 0 <= k < next.len() && next[k] == x;
            assert(k == acc.len());
            assert(new[0] == x);
        }
        if new.drop_first().contains(x) {
            let k = choose|k: int| 0 <= k < new.drop_first().len() && new.drop_first()[k] == x;
            assert(new[k + 1] == x);
        }
    }
}

/// Roles of which none is a user role give no user role.
pub proof fn lemma_no_user_role(roles: Seq<Seq<char>>, prefixes: Seq<String>)
    requires
        forall|k: int| 0 <= k < roles.len() ==> !is_user_role(#[trigger] roles[k], prefixes),
    ensures
        first_user_role(roles, prefixes) is None,
    decreases roles.len(),
{
    if roles.len() > 0 {
        let tail = roles.drop_first();
        assert forall|k: int| 0 <= k < tail.len() implies !is_user_role(#[trigger] tail[k], prefixes) by {
            assert(tail[k] == roles[k + 1]);
        }
        lemma_no_user_role(tail, prefixes);
    }
}

/// Stored or reported roles of which none is a user role describe no user:
/// session and callback resolution then end in an error, not a crash.
pub proof fn lemma_identity_without_user_role(
    username: Seq<char>,
    display_name: Seq<char>,
    email: Option<Seq<char>>,
    roles: Seq<Seq<char>>,
    prefixes: Seq<String>,
)
    requires
        forall|k: int| 0 <= k < roles.len() ==> !is_user_role(#[trigger] roles[k], prefixes),
    ensures
        identity_user(username, display_name, email, roles, prefixes) is None,
{
    let d = dedup_roles(roles);
    assert forall|k: int| 0 <= k < d.len() implies !is_user_role(#[trigger] d[k], prefixes) by {
        assert(d.contains(d[k]));
        lemma_with_roles_from(Seq::<Seq<char>>::empty(), roles, d[k]);
        let j = choose|j: int| 0 <= j < roles.len() && roles[j] == d[k];
        assert(!is_user_role(roles[j], prefixes));
    }
    lemma_no_user_role(d, prefixes);
}

} // verus!
