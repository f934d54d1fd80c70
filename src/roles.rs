use vstd::prelude::*;

verus! {

/// Users with this role are global administrators and may do anything.
pub const ROLE_ADMIN: &'static str = "ROLE_ADMIN";

/// Every request, identified or not, carries this role.
pub const ROLE_ANONYMOUS: &'static str = "ROLE_ANONYMOUS";

/// The texts of a list of roles.
pub open spec fn texts(roles: Seq<String>) -> Seq<Seq<char>> {
    roles.map_values(|r: String| r@)
}

/// No role occurs twice: the list stands for a set.
pub open spec fn distinct_roles(roles: Seq<String>) -> bool {
    forall|i: int, j: int|
        0 <= i < roles.len() && 0 <= j < roles.len() && i != j ==> #[trigger] roles[i]@ != #[trigger] roles[j]@
}

/// `prefix` is a prefix of `s`.
pub open spec fn starts_with_spec(s: Seq<char>, prefix: Seq<char>) -> bool {
    prefix.len() <= s.len() && s.subrange(0, prefix.len() as int) == prefix
}

/// A user role is a role that starts with one of the configured prefixes.
pub open spec fn is_user_role(role: Seq<char>, prefixes: Seq<String>) -> bool {
    exists|j: int| 0 <= j < prefixes.len() && starts_with_spec(role, #[trigger] prefixes[j]@)
}

/// The first user role in `roles`, if there is one.
pub open spec fn first_user_role(roles: Seq<Seq<char>>, prefixes: Seq<String>) -> Option<Seq<char>>
    decreases roles.len(),
{
    if roles.len() == 0 {
        None
    } else if is_user_role(roles[0], prefixes) {
        Some(roles[0])
    } else {
        first_user_role(roles.drop_first(), prefixes)
    }
}

/// Whether `prefix` is a prefix of `s`, character by character.
pub fn starts_with(s: &str, prefix: &str) -> (r: bool)
    ensures
        r == starts_with_spec(s@, prefix@),
{
    let n = prefix.unicode_len();
    let m = s.unicode_len();
    if n > m {
        return false;
    }
    let mut i: usize = 0;
    while i < n
        invariant
            n == prefix@.len(),
            m == s@.len(),
            n <= m,
            i <= n,
            forall|k: int| 0 <= k < i ==> s@[k] == prefix@[k],
        decreases n - i,
    {
        if s.get_char(i) != prefix.get_char(i) {
            assert(s@.subrange(0, n as int)[i as int] != prefix@[i as int]);
            return false;
        }
        i = i + 1;
    }
    assert(s@.subrange(0, n as int) =~= prefix@);
    true
}

/// Whether `role` starts with any of `prefixes`.
pub fn matches_user_prefix(role: &String, prefixes: &Vec<String>) -> (r: bool)
    ensures
        r == is_user_role(role@, prefixes@),
{
    let mut j: usize = 0;
    while j < prefixes.len()
        invariant
            j <= prefixes.len(),
            forall|k: int| 0 <= k < j ==> !starts_with_spec(role@, #[trigger] prefixes@[k]@),
        decreases prefixes.len() - j,
    {
        if starts_with(role.as_str(), prefixes[j].as_str()) {
            return true;
        }
        j = j + 1;
    }
    false
}

proof fn lemma_first_user_role_skip(roles: Seq<Seq<char>>, prefixes: Seq<String>, i: int)
    requires
        0 <= i < roles.len(),
        !is_user_role(roles[i], prefixes),
    ensures
        first_user_role(roles.subrange(i, roles.len() as int), prefixes)
            == first_user_role(roles.subrange(i + 1, roles.len() as int), prefixes),
{
    let tail = roles.subrange(i, roles.len() as int);
    assert(tail.drop_first() =~= roles.subrange(i + 1, roles.len() as int));
}

/// Finds the user role among `roles`: the first role, in the list's order,
/// that starts with one of `prefixes`. Where a user has more than one, the
/// first is taken; where none, there is no user role.
pub fn find_user_role(roles: &Vec<String>, prefixes: &Vec<String>) -> (r: Option<usize>)
    ensures
        match r {
            Some(i) => i < roles@.len() && first_user_role(texts(roles@), prefixes@) == Some(roles@[i as int]@)
                && is_user_role(roles@[i as int]@, prefixes@)
                && forall|k: int| 0 <= k < i ==> !is_user_role(#[trigger] roles@[k]@, prefixes@),
            None => first_user_role(texts(roles@), prefixes@) is None
                && forall|k: int| 0 <= k < roles@.len() ==> !is_user_role(#[trigger] roles@[k]@, prefixes@),
        },
{
    let mut i: usize = 0;
    assert(texts(roles@).subrange(0, roles@.len() as int) =~= texts(roles@));
    while i < roles.len()
        invariant
            i <= roles@.len(),
            first_user_role(texts(roles@), prefixes@)
                == first_user_role(texts(roles@).subrange(i as int, roles@.len() as int), prefixes@),
            forall|k: int| 0 <= k < i ==> !is_user_role(#[trigger] roles@[k]@, prefixes@),
        decreases roles.len() - i,
    {
        if matches_user_prefix(&roles[i], prefixes) {
            return Some(i);
        }
        proof {
            lemma_first_user_role_skip(texts(roles@), prefixes@, i as int);
        }
        i = i + 1;
    }
    None
}

/// With exactly one user role among `roles`, that role is the user role
/// that is derived.
pub proof fn lemma_single_user_role(roles: Seq<Seq<char>>, prefixes: Seq<String>, i: int)
    requires
        0 <= i < roles.len(),
        is_user_role(roles[i], prefixes),
        forall|k: int| 0 <= k < roles.len() && k != i ==> !is_user_role(#[trigger] roles[k], prefixes),
    ensures
        first_user_role(roles, prefixes) == Some(roles[i]),
    decreases roles.len(),
{
    if i > 0 {
        let tail = roles.drop_first();
        assert forall|k: int| 0 <= k < tail.len() && k != i - 1 implies !is_user_role(#[trigger] tail[k], prefixes) by {
            assert(tail[k] == roles[k + 1]);
        }
        lemma_single_user_role(tail, prefixes, i - 1);
    }
}

/// Whether `roles` holds `role`.
pub fn contains_role(roles: &Vec<String>, role: &String) -> (r: bool)
    ensures
        r == texts(roles@).contains(role@),
{
    let mut i: usize = 0;
    while i < roles.len()
        invariant
            i <= roles@.len(),
            forall|k: int| 0 <= k < i ==> roles@[k]@ != role@,
        decreases roles.len() - i,
    {
        if roles[i] == *role {
            assert(texts(roles@)[i as int] == role@);
            return true;
        }
        i = i + 1;
    }
    assert(!texts(roles@).contains(role@)) by {
        if texts(roles@).contains(role@) {
            let k = choose|k: int| 0 <= k < texts(roles@).len() && texts(roles@)[k] == role@;
            assert(roles@[k]@ == role@);
        }
    }
    false
}

} // verus!
