use vstd::prelude::*;
use vstd::utf8::{decode_utf8, valid_utf8};
use crate::codec::{b64_text, base64encode, utf8_string};
use crate::headers::{find_header, header_value, Header};
use crate::roles::{starts_with, starts_with_spec, texts};
use crate::text::{split_at_char, split_on, trim, trim_of};
use crate::config::opt_text;
use crate::user::{identity_user, AuthError, User, UserView};

verus! {

/// The cookie that carries the session identifier.
pub const SESSION_COOKIE: &'static str = "tobira-session";

/// The header that carries the cookies.
pub const COOKIE_HEADER: &'static str = "cookie";

/// How many random bytes a session identifier is made from.
pub const SESSION_ID_BYTES: usize = 18;

/// The value of one `name=value` cookie pair, if it is named `name`.
pub open spec fn cookie_pair_value(piece: Seq<char>, name: Seq<char>) -> Option<Seq<char>> {
    let t = trim_of(piece);
    let key = name.push('=');
    if starts_with_spec(t, key) {
        Some(t.subrange(key.len() as int, t.len() as int))
    } else {
        None
    }
}

/// The value of the first of `pieces` that is a pair named `name`.
pub open spec fn first_cookie(pieces: Seq<Seq<char>>, name: Seq<char>) -> Option<Seq<char>>
    decreases pieces.len(),
{
    if pieces.len() == 0 {
        None
    } else {
        match cookie_pair_value(pieces[0], name) {
            Some(v) => Some(v),
            None => first_cookie(pieces.drop_first(), name),
        }
    }
}

/// The session identifier that the request's cookie header carries.
pub open spec fn session_cookie(headers: Seq<Header>) -> Option<Seq<char>> {
    match header_value(headers, COOKIE_HEADER@) {
        Some(v) => if valid_utf8(v) {
            first_cookie(split_on(decode_utf8(v), ';'), SESSION_COOKIE@)
        } else {
            None
        },
        None => None,
    }
}

/// Reads the value of one cookie pair, if it is named `name`.
pub fn cookie_value_of(piece: &str, name: &str) -> (r: Option<String>)
    ensures
        opt_text(r) == cookie_pair_value(piece@, name@),
{
    let t = trim(piece);
    let mut key = name.to_owned();
    key.append("=");
    proof {
        reveal_strlit("=");
    }
    assert(key@ =~= name@.push('='));
    if starts_with(t.as_str(), key.as_str()) {
        let n = t.as_str().unicode_len();
        let k = key.as_str().unicode_len();
        Some(t.as_str().substring_char(k, n).to_owned())
    } else {
        None
    }
}

proof fn lemma_first_cookie_skip(pieces: Seq<Seq<char>>, name: Seq<char>, i: int)
    requires
        0 <= i < pieces.len(),
        cookie_pair_value(pieces[i], name) is None,
    ensures
        first_cookie(pieces.subrange(i, pieces.len() as int), name)
            == first_cookie(pieces.subrange(i + 1, pieces.len() as int), name),
{
    assert(pieces.subrange(i, pieces.len() as int).drop_first()
        =~= pieces.subrange(i + 1, pieces.len() as int));
}

/// Extracts the session identifier from the request's cookie header. Without
/// one, there is no session.
pub fn session_id_from_headers(headers: &Vec<Header>) -> (r: Option<String>)
    ensures
        opt_text(r) == session_cookie(headers@),
{
    let i = match find_header(headers, COOKIE_HEADER) {
        Some(i) => i,
        None => return None,
    };
    let text = match utf8_string(headers[i].value.as_slice()) {
        Some(t) => t,
        None => return None,
    };
    let pieces = split_at_char(text.as_str(), ';');
    let ghost ps = split_on(text@, ';');
    assert(ps.subrange(0, ps.len() as int) =~= ps);
    let mut j: usize = 0;
    while j < pieces.len()
        invariant
            j <= pieces@.len(),
            pieces@.map_values(|p: String| p@) == ps,
            session_cookie(headers@) == first_cookie(ps.subrange(j as int, ps.len() as int), SESSION_COOKIE@),
        decreases pieces.len() - j,
    {
        assert(ps[j as int] == pieces@[j as int]@);
        let v = cookie_value_of(pieces[j].as_str(), SESSION_COOKIE);
        if v.is_some() {
            assert(ps.subrange(j as int, ps.len() as int)[0] == ps[j as int]);
            return v;
        }
        proof {
            lemma_first_cookie_skip(ps, SESSION_COOKIE@, j as int);
        }
        j = j + 1;
    }
    None
}

/// A new session identifier: the base64 text of random bytes that the
/// caller draws from a source fit for security tokens.
pub fn new_session_id(random: &[u8]) -> (r: String)
    ensures
        r@ == b64_text(random@),
{
    base64encode(random)
}

/// Whether a session created at `created` is still valid at `now`.
pub open spec fn is_live_spec(created: int, now: int, duration: int) -> bool {
    now - created < duration
}

/// Whether a session created at `created` is old enough to be swept away at `now`.
pub open spec fn is_expired_spec(created: int, now: int, duration: int) -> bool {
    now - created > duration
}

/// Whether a session created at `created_ms` is still valid at `now_ms`:
/// its age is strictly below the duration. All times are in milliseconds.
pub fn is_live(created_ms: i64, now_ms: i64, duration_ms: u64) -> (r: bool)
    ensures
        r == is_live_spec(created_ms as int, now_ms as int, duration_ms as int),
{
    (now_ms as i128) - (created_ms as i128) < duration_ms as i128
}

/// Whether a session created at `created_ms` is older than the duration at
/// `now_ms`, so that maintenance removes it.
pub fn is_expired(created_ms: i64, now_ms: i64, duration_ms: u64) -> (r: bool)
    ensures
        r == is_expired_spec(created_ms as int, now_ms as int, duration_ms as int),
{
    (now_ms as i128) - (created_ms as i128) > duration_ms as i128
}

/// A stored session.
#[derive(Debug)]
pub struct Session {
    pub id: String,
    pub username: String,
    pub display_name: String,
    pub roles: Vec<String>,
    pub email: Option<String>,
    pub created_ms: i64,
}

impl Session {
    /// Derives the user of this session. Roles without a user role are an
    /// error, never a crash.
    pub fn to_user(&self, prefixes: &Vec<String>) -> (r: Result<User, AuthError>)
        ensures
            match r {
                Ok(u) => session_user(*self, prefixes@) == Some(u@) && u.wf(prefixes@),
                Err(e) => e == AuthError::MissingUserRole && session_user(*self, prefixes@) is None,
            },
    {
        User::from_parts(
            self.username.clone(),
            self.display_name.clone(),
            self.email.clone(),
            self.roles.clone(),
            prefixes,
        )
    }
}

/// The user that a stored session describes, if its roles hold a user role.
pub open spec fn session_user(s: Session, prefixes: Seq<String>) -> Option<UserView> {
    identity_user(s.username@, s.display_name@, opt_text(s.email), texts(s.roles@), prefixes)
}

/// Some session of `sessions` has identifier `id`.
pub open spec fn id_taken(sessions: Seq<Session>, id: Seq<char>) -> bool {
    exists|i: int| 0 <= i < sessions.len() && #[trigger] sessions[i].id@ == id
}

/// No two sessions share an identifier.
pub open spec fn distinct_ids(sessions: Seq<Session>) -> bool {
    forall|i: int, j: int|
        0 <= i < sessions.len() && 0 <= j < sessions.len() && i != j
            ==> #[trigger] sessions[i].id@ != #[trigger] sessions[j].id@
}

/// A session with identifier `id` is valid at `now`.
pub open spec fn retrievable(sessions: Seq<Session>, id: Seq<char>, now: int, duration: int) -> bool {
    exists|i: int|
        0 <= i < sessions.len() && #[trigger] sessions[i].id@ == id
            && is_live_spec(sessions[i].created_ms as int, now, duration)
}

/// What is left of `sessions` after a sweep at `now`.
pub open spec fn sweep(sessions: Seq<Session>, now: int, duration: int) -> Seq<Session> {
    sessions.filter(|s: Session| !is_expired_spec(s.created_ms as int, now, duration))
}

/// The server-side sessions, each under a unique identifier.
pub struct SessionStore {
    pub sessions: Vec<Session>,
}

impl SessionStore {
    pub open spec fn wf(&self) -> bool {
        distinct_ids(self.sessions@)
    }

    /// An empty store.
    pub fn new() -> (r: SessionStore)
        ensures
            r.wf(),
            r.sessions@.len() == 0,
    {
        SessionStore { sessions: Vec::new() }
    }

    /// Stores a new session for `user` under `id`, created at `now_ms`. An
    /// identifier that is taken already is a hard error: nothing is stored
    /// and nothing is retried.
    pub fn create_session(&mut self, user: &User, id: String, now_ms: i64) -> (r: Result<(), AuthError>)
        requires
            old(self).wf(),
        ensures
            final(self).wf(),
            id_taken(old(self).sessions@, id@) ==> r == Err::<(), AuthError>(AuthError::InternalError)
                && final(self).sessions@ == old(self).sessions@,
            !id_taken(old(self).sessions@, id@) ==> r is Ok
                && final(self).sessions@.len() == old(self).sessions@.len() + 1
                && final(self).sessions@.drop_last() == old(self).sessions@
                && final(self).sessions@.last().id@ == id@
                && final(self).sessions@.last().username@ == user.username@
                && final(self).sessions@.last().display_name@ == user.display_name@
                && opt_text(final(self).sessions@.last().email) == opt_text(user.email)
                && texts(final(self).sessions@.last().roles@) == texts(user.roles@)
                && final(self).sessions@.last().created_ms == now_ms,
    {
        let mut i: usize = 0;
        while i < self.sessions.len()
            invariant
                i <= self.sessions@.len(),
                self.sessions@ == old(self).sessions@,
                self.wf(),
                forall|k: int| 0 <= k < i ==> self.sessions@[k].id@ != id@,
            decreases self.sessions.len() - i,
        {
            if self.sessions[i].id == id {
                return Err(AuthError::InternalError);
            }
            i = i + 1;
        }
        let roles = user.roles.clone();
        assert(texts(roles@) =~= texts(user.roles@));
        let session = Session {
            id,
            username: user.username.clone(),
            display_name: user.display_name.clone(),
            roles,
            email: user.email.clone(),
            created_ms: now_ms,
        };
        self.sessions.push(session);
        assert(self.sessions@.drop_last() =~= old(self).sessions@);
        Ok(())
    }

    /// The session with identifier `id`, if it is still valid at `now_ms`.
    pub fn lookup(&self, id: &String, now_ms: i64, duration_ms: u64) -> (r: Option<usize>)
        requires
            self.wf(),
        ensures
            r is Some <==> retrievable(self.sessions@, id@, now_ms as int, duration_ms as int),
            r matches Some(i) ==> i < self.sessions@.len() && self.sessions@[i as int].id@ == id@
                && is_live_spec(self.sessions@[i as int].created_ms as int, now_ms as int, duration_ms as int),
    {
        let mut i: usize = 0;
        while i < self.sessions.len()
            invariant
                i <= self.sessions@.len(),
                self.wf(),
                forall|k: int| 0 <= k < i ==> #[trigger] self.sessions@[k].id@ != id@,
            decreases self.sessions.len() - i,
        {
            if self.sessions[i].id == *id {
                if is_live(self.sessions[i].created_ms, now_ms, duration_ms) {
                    return Some(i);
                }
                assert(!retrievable(self.sessions@, id@, now_ms as int, duration_ms as int)) by {
                    if retrievable(self.sessions@, id@, now_ms as int, duration_ms as int) {
                        let j = choose|j: int|
                            0 <= j < self.sessions@.len() && #[trigger] self.sessions@[j].id@ == id@
                                && is_live_spec(self.sessions@[j].created_ms as int, now_ms as int, duration_ms as int);
                        assert(self.sessions@[j].id@ == self.sessions@[i as int].id@);
                        assert(distinct_ids(self.sessions@));
                        if j != i as int {
                            assert(self.sessions@[j].id@ != self.sessions@[i as int].id@);
                        }
                    }
                }
                return None;
            }
            i = i + 1;
        }
        None
    }

    /// Removes every session older than the duration at `now_ms` and says
    /// how many went.
    pub fn purge_expired(&mut self, now_ms: i64, duration_ms: u64) -> (r: usize)
        requires
            old(self).wf(),
        ensures
            final(self).wf(),
            final(self).sessions@ == sweep(old(self).sessions@, now_ms as int, duration_ms as int),
            r == old(self).sessions@.len() - final(self).sessions@.len(),
    {
        let ghost now = now_ms as int;
        let ghost dur = duration_ms as int;
        let ghost orig = self.sessions@;
        let n: usize = self.sessions.len();
        let mut i: usize = 0;
        let mut k: usize = 0;
        assert(orig.subrange(0, 0) =~= Seq::<Session>::empty());
        assert(sweep(orig.subrange(0, 0), now, dur) =~= Seq::<Session>::empty());
        while k < n
            invariant
                n == orig.len(),
                now == now_ms as int,
                dur == duration_ms as int,
                i <= k <= orig.len(),
                orig == old(self).sessions@,
                distinct_ids(self.sessions@),
                self.sessions@.len() == i + (orig.len() - k),
                self.sessions@.subrange(0, i as int) == sweep(orig.subrange(0, k as int), now, dur),
                self.sessions@.subrange(i as int, self.sessions@.len() as int)
                    == orig.subrange(k as int, orig.len() as int),
            decreases n - k,
        {
            assert(self.sessions@[i as int] == orig[k as int]) by {
                assert(self.sessions@.subrange(i as int, self.sessions@.len() as int)[0]
                    == orig.subrange(k as int, orig.len() as int)[0]);
            }
            let ghost prefix = orig.subrange(0, k + 1);
            assert(prefix.drop_last() =~= orig.subrange(0, k as int));
            assert(prefix.last() == orig[k as int]);
            let ghost before = self.sessions@;
            proof {
                reveal(Seq::filter);
            }
            assert(sweep(prefix, now, dur) == if is_expired_spec(orig[k as int].created_ms as int, now, dur) {
                sweep(orig.subrange(0, k as int), now, dur)
            } else {
                sweep(orig.subrange(0, k as int), now, dur).push(orig[k as int])
            });
            if is_expired(self.sessions[i].created_ms, now_ms, duration_ms) {
                self.sessions.remove(i);
                assert(self.sessions@.subrange(0, i as int) =~= before.subrange(0, i as int));
                assert(self.sessions@.subrange(i as int, self.sessions@.len() as int)
                    =~= orig.subrange(k + 1, orig.len() as int)) by {
                    assert(before.subrange(i as int, before.len() as int).drop_first()
                        =~= orig.subrange(k + 1, orig.len() as int));
                }
                assert(self.sessions@.subrange(0, i as int) == sweep(prefix, now, dur));
            } else {
                assert(self.sessions@.subrange(0, i + 1) =~= before.subrange(0, i as int).push(orig[k as int]));
                assert(self.sessions@.subrange(i + 1, self.sessions@.len() as int)
                    =~= orig.subrange(k + 1, orig.len() as int)) by {
                    assert(before.subrange(i as int, before.len() as int).drop_first()
                        =~= orig.subrange(k + 1, orig.len() as int));
                }
                assert(self.sessions@.subrange(0, i + 1) == sweep(prefix, now, dur));
                i = i + 1;
            }
            k = k + 1;
        }
        assert(orig.subrange(0, orig.len() as int) =~= orig);
        assert(self.sessions@ =~= self.sessions@.subrange(0, i as int));
        n - self.sessions.len()
    }
}

proof fn lemma_retrievable_push(sessions: Seq<Session>, s: Session, id: Seq<char>, now: int, duration: int)
    ensures
        retrievable(sessions.push(s), id, now, duration) <==> (retrievable(sessions, id, now, duration) || (
        s.id@ == id && is_live_spec(s.created_ms as int, now, duration))),
{
    let all = sessions.push(s);
    if retrievable(sessions, id, now, duration) {
        let i = choose|i: int|
            0 <= i < sessions.len() && #[trigger] sessions[i].id@ == id
                && is_live_spec(sessions[i].created_ms as int, now, duration);
        assert(all[i] == sessions[i]);
    }
    if s.id@ == id && is_live_spec(s.created_ms as int, now, duration) {
        assert(all[sessions.len() as int] == s);
    }
    if retrievable(all, id, now, duration) {
        let i = choose|i: int|
            0 <= i < all.len() && #[trigger] all[i].id@ == id && is_live_spec(all[i].created_ms as int, now, duration);
        if i < sessions.len() {
            assert(all[i] == sessions[i]);
        }
    }
}

/// Among sessions with unique identifiers, a session created at `T` is
/// retrievable at `now` exactly while `now - T` is below the duration.
pub proof fn lemma_retrievable_iff_young(sessions: Seq<Session>, j: int, now: int, duration: int)
    requires
        distinct_ids(sessions),
        0 <= j < sessions.len(),
    ensures
        retrievable(sessions, sessions[j].id@, now, duration)
            <==> now - sessions[j].created_ms < duration,
{
    if retrievable(sessions, sessions[j].id@, now, duration) {
        let i = choose|i: int|
            0 <= i < sessions.len() && #[trigger] sessions[i].id@ == sessions[j].id@
                && is_live_spec(sessions[i].created_ms as int, now, duration);
        assert(i == j);
    }
}

/// A sweep at `swept_at` changes nothing that a lookup at any later `now`
/// finds: what it removes is expired at `now` anyway.
pub proof fn lemma_sweep_keeps_lookups(
    sessions: Seq<Session>,
    id: Seq<char>,
    swept_at: int,
    now: int,
    duration: int,
)
    requires
        swept_at <= now,
    ensures
        retrievable(sweep(sessions, swept_at, duration), id, now, duration)
            == retrievable(sessions, id, now, duration),
    decreases sessions.len(),
{
    if sessions.len() == 0 {
        assert(sweep(sessions, swept_at, duration) =~= sessions);
    } else {
        let init = sessions.drop_last();
        let last = sessions.last();
        lemma_sweep_keeps_lookups(init, id, swept_at, now, duration);
        assert(sessions =~= init.push(last));
        lemma_retrievable_push(init, last, id, now, duration);
        reveal(Seq::filter);
        assert(sweep(sessions, swept_at, duration) == if is_expired_spec(last.created_ms as int, swept_at, duration) {
            sweep(init, swept_at, duration)
        } else {
            sweep(init, swept_at, duration).push(last)
        });
        if !is_expired_spec(last.created_ms as int, swept_at, duration) {
            lemma_retrievable_push(sweep(init, swept_at, duration), last, id, now, duration);
        }
    }
}

} // verus!
