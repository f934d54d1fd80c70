use vstd::prelude::*;
use crate::config::opt_text;
use crate::user::User;

verus! {

/// How long written attributes count as fresh, in milliseconds.
pub const REFRESH_MS: u64 = 5 * 60 * 1000;

/// What was last written for one user, and when.
#[derive(Debug)]
pub struct CachedUser {
    pub username: String,
    pub display_name: String,
    pub email: Option<String>,
    pub written_ms: i64,
}

/// The position of the entry for `username`, if there is one.
pub open spec fn entry_index(entries: Seq<CachedUser>, username: Seq<char>) -> Option<int> {
    if exists|i: int| 0 <= i < entries.len() && #[trigger] entries[i].username@ == username {
        Some(choose|i: int| 0 <= i < entries.len() && #[trigger] entries[i].username@ == username)
    } else {
        None
    }
}

/// Whether `user`, seen at `now`, must be written: nothing is recorded for
/// them, their display name or email changed, or the last write is at least
/// `refresh` old.
pub open spec fn write_due(entries: Seq<CachedUser>, user: User, now: int, refresh: int) -> bool {
    match entry_index(entries, user.username@) {
        None => true,
        Some(i) => entries[i].display_name@ != user.display_name@ || opt_text(entries[i].email) != opt_text(
            user.email,
        ) || now - entries[i].written_ms >= refresh,
    }
}

/// Remembers which user attributes were written to the user table, so that
/// repeated requests of one user do not each pay for a write.
pub struct UserCache {
    pub entries: Vec<CachedUser>,
}

impl UserCache {
    /// No two entries are for the same user.
    pub open spec fn wf(&self) -> bool {
        forall|i: int, j: int|
            0 <= i < self.entries@.len() && 0 <= j < self.entries@.len() && i != j
                ==> #[trigger] self.entries@[i].username@ != #[trigger] self.entries@[j].username@
    }

    /// An empty cache.
    pub fn new() -> (r: UserCache)
        ensures
            r.wf(),
            r.entries@.len() == 0,
    {
        UserCache { entries: Vec::new() }
    }

    /// Notes that `user` was seen at `now_ms` and says whether their
    /// attributes must be written now. Where they must, the cache records
    /// them as written at `now_ms`; else it stays as it is.
    pub fn note_seen(&mut self, user: &User, now_ms: i64, refresh_ms: u64) -> (r: bool)
        requires
            old(self).wf(),
        ensures
            final(self).wf(),
            r == write_due(old(self).entries@, *user, now_ms as int, refresh_ms as int),
            !r ==> final(self).entries@ == old(self).entries@,
            final(self).entries@.len() == old(self).entries@.len() + if entry_index(
                old(self).entries@,
                user.username@,
            ) is None {
                1int
            } else {
                0int
            },
            forall|j: int|
                0 <= j < old(self).entries@.len() && old(self).entries@[j].username@ != user.username@
                    ==> #[trigger] final(self).entries@[j] == old(self).entries@[j],
            r ==> (entry_index(final(self).entries@, user.username@) matches Some(i)
                && final(self).entries@[i].display_name@ == user.display_name@
                && opt_text(final(self).entries@[i].email) == opt_text(user.email)
                && final(self).entries@[i].written_ms == now_ms),
    {
        let entry = CachedUser {
            username: user.username.clone(),
            display_name: user.display_name.clone(),
            email: user.email.clone(),
            written_ms: now_ms,
        };
        let mut i: usize = 0;
        while i < self.entries.len()
            invariant
                i <= self.entries@.len(),
                self.entries@ == old(self).entries@,
                self.wf(),
                entry.username@ == user.username@,
                entry.display_name@ == user.display_name@,
                opt_text(entry.email) == opt_text(user.email),
                entry.written_ms == now_ms,
                forall|k: int| 0 <= k < i ==> #[trigger] self.entries@[k].username@ != user.username@,
            decreases self.entries.len() - i,
        {
            if self.entries[i].username == user.username {
                assert(entry_index(self.entries@, user.username@) == Some(i as int)) by {
                    let j = choose|j: int| 0 <= j < self.entries@.len() && #[trigger] self.entries@[j].username@ == user.username@;
                    if j != i as int {
                        assert(self.entries@[j].username@ != self.entries@[i as int].username@);
                    }
                }
                let same = self.entries[i].display_name == user.display_name
                    && same_email(&self.entries[i].email, &user.email);
                let fresh = (now_ms as i128) - (self.entries[i].written_ms as i128) < refresh_ms as i128;
                if same && fresh {
                    return false;
                }
                let ghost before = self.entries@;
                self.entries.set(i, entry);
                assert(self.entries@[i as int].username@ == user.username@);
                assert forall|j: int| 0 <= j < self.entries@.len() && j != i as int
                    implies #[trigger] self.entries@[j].username@ != user.username@ by {
                    assert(self.entries@[j] == before[j]);
                    assert(before[j].username@ != before[i as int].username@);
                }
                assert(entry_index(self.entries@, user.username@) == Some(i as int));
                return true;
            }
            i = i + 1;
        }
        let ghost before = self.entries@;
        self.entries.push(entry);
        let ghost n = before.len() as int;
        assert(self.entries@[n].username@ == user.username@);
        assert forall|j: int| 0 <= j < n implies #[trigger] self.entries@[j].username@ != user.username@ by {
            assert(self.entries@[j] == before[j]);
        }
        assert(entry_index(self.entries@, user.username@) == Some(n));
        true
    }
}

/// Whether two optional emails are the same.
fn same_email(a: &Option<String>, b: &Option<String>) -> (r: bool)
    ensures
        r == (opt_text(*a) == opt_text(*b)),
{
    match (a, b) {
        (Some(x), Some(y)) => *x == *y,
        (None, None) => true,
        _ => false,
    }
}

} // verus!
