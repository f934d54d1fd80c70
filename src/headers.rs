use vstd::prelude::*;
use vstd::utf8::encode_utf8;
use crate::codec::{decode_header_text, decoded_text};
use crate::config::AuthConfig;
use crate::roles::{distinct_roles, find_user_role, first_user_role, is_user_role, texts, ROLE_ANONYMOUS};
use crate::text::{split_at_commas, split_commas, trim, trim_of};
use crate::config::opt_text;
use crate::user::{insert_role, lemma_no_user_role, with_roles, User, UserView};

verus! {

/// The header that carries the shared secret of trusted outside applications.
pub const TRUSTED_KEY_HEADER: &'static str = "x-tobira-trusted-external-key";

/// One request header: its lower-case name and its raw value.
#[derive(Clone, Debug)]
pub struct Header {
    pub name: String,
    pub value: Vec<u8>,
}

/// The value of the first header named `name`.
pub open spec fn header_value(headers: Seq<Header>, name: Seq<char>) -> Option<Seq<u8>>
    decreases headers.len(),
{
    if headers.len() == 0 {
        None
    } else if headers[0].name@ == name {
        Some(headers[0].value@)
    } else {
        header_value(headers.drop_first(), name)
    }
}

proof fn lemma_header_value_skip(headers: Seq<Header>, name: Seq<char>, i: int)
    requires
        0 <= i < headers.len(),
        headers[i].name@ != name,
    ensures
        header_value(headers.subrange(i, headers.len() as int), name)
            == header_value(headers.subrange(i + 1, headers.len() as int), name),
{
    assert(headers.subrange(i, headers.len() as int).drop_first()
        =~= headers.subrange(i + 1, headers.len() as int));
}

/// The position of the first header named `name`.
pub fn find_header(headers: &Vec<Header>, name: &str) -> (r: Option<usize>)
    ensures
        match r {
            Some(i) => i < headers@.len() && header_value(headers@, name@) == Some(headers@[i as int].value@),
            None => header_value(headers@, name@) is None,
        },
{
    let mut i: usize = 0;
    assert(headers@.subrange(0, headers@.len() as int) =~= headers@);
    while i < headers.len()
        invariant
            i <= headers@.len(),
            header_value(headers@, name@)
                == header_value(headers@.subrange(i as int, headers@.len() as int), name@),
        decreases headers.len() - i,
    {
        if equal_text(headers[i].name.as_str(), name) {
            return Some(i);
        }
        proof {
            lemma_header_value_skip(headers@, name@, i as int);
        }
        i = i + 1;
    }
    None
}

/// Whether two texts are equal, character by character.
pub fn equal_text(a: &str, b: &str) -> (r: bool)
    ensures
        r == (a@ == b@),
{
    let n = a.unicode_len();
    if n != b.unicode_len() {
        return false;
    }
    let mut i: usize = 0;
    while i < n
        invariant
            n == a@.len(),
            n == b@.len(),
            i <= n,
            forall|k: int| 0 <= k < i ==> a@[k] == b@[k],
        decreases n - i,
    {
        if a.get_char(i) != b.get_char(i) {
            return false;
        }
        i = i + 1;
    }
    assert(a@ =~= b@);
    true
}

/// The text of the header named `name`, base64-decoded UTF-8.
pub open spec fn header_text(headers: Seq<Header>, name: Seq<char>) -> Option<Seq<char>> {
    match header_value(headers, name) {
        Some(v) => decoded_text(v),
        None => None,
    }
}

/// Reads and decodes the header named `name`.
pub fn read_text_header(headers: &Vec<Header>, name: &str) -> (r: Option<String>)
    ensures
        opt_text(r) == header_text(headers@, name@),
{
    match find_header(headers, name) {
        None => None,
        Some(i) => decode_header_text(headers[i].value.as_slice()),
    }
}

/// The roles that a roles header with text `raw` grants: the anonymous role,
/// then each comma-separated piece, trimmed, each role once.
pub open spec fn header_roles(raw: Seq<char>) -> Seq<Seq<char>> {
    with_roles(seq![ROLE_ANONYMOUS@], split_commas(raw).map_values(|p: Seq<char>| trim_of(p)))
}

/// The user that the headers describe, if they describe one.
pub open spec fn header_user(headers: Seq<Header>, cfg: AuthConfig) -> Option<UserView> {
    match (
        header_text(headers, cfg.username_header@),
        header_text(headers, cfg.display_name_header@),
        header_text(headers, cfg.roles_header@),
    ) {
        (Some(username), Some(display_name), Some(raw)) => match first_user_role(
            header_roles(raw),
            cfg.user_role_prefixes@,
        ) {
            Some(user_role) => Some(
                UserView {
                    username,
                    display_name,
                    email: header_text(headers, cfg.email_header@),
                    roles: header_roles(raw),
                    user_role,
                },
            ),
            None => None,
        },
        _ => None,
    }
}

/// Builds the role list of a roles header with text `raw`.
pub fn roles_from_header(raw: &str) -> (r: Vec<String>)
    ensures
        distinct_roles(r@),
        texts(r@) == header_roles(raw@),
{
    let pieces = split_at_commas(raw);
    let ghost new = split_commas(raw@).map_values(|p: Seq<char>| trim_of(p));
    let mut roles: Vec<String> = vec![ROLE_ANONYMOUS.to_owned()];
    assert(texts(roles@) =~= seq![ROLE_ANONYMOUS@]);
    assert(new.subrange(0, new.len() as int) =~= new);
    let mut i: usize = 0;
    while i < pieces.len()
        invariant
            i <= pieces@.len(),
            pieces@.map_values(|p: String| p@) == split_commas(raw@),
            new == split_commas(raw@).map_values(|p: Seq<char>| trim_of(p)),
            new.len() == pieces@.len(),
            distinct_roles(roles@),
            header_roles(raw@) == with_roles(texts(roles@), new.subrange(i as int, new.len() as int)),
        decreases pieces.len() - i,
    {
        let role = trim(pieces[i].as_str());
        assert(pieces@.map_values(|p: String| p@)[i as int] == pieces@[i as int]@);
        assert(role@ == new[i as int]);
        insert_role(&mut roles, role);
        assert(new.subrange(i as int, new.len() as int).drop_first()
            =~= new.subrange(i + 1, new.len() as int));
        i = i + 1;
    }
    assert(new.subrange(i as int, new.len() as int) =~= Seq::<Seq<char>>::empty());
    roles
}

impl User {
    /// Reads the user from the trusted proxy's headers. Without a valid
    /// username, display name or roles header, or without a user role, there
    /// is no user. The email header is optional.
    pub fn from_auth_headers(headers: &Vec<Header>, cfg: &AuthConfig) -> (r: Option<User>)
        ensures
            match r {
                Some(u) => header_user(headers@, *cfg) == Some(u@) && u.wf(cfg.user_role_prefixes@),
                None => header_user(headers@, *cfg) is None,
            },
    {
        let username = match read_text_header(headers, cfg.username_header.as_str()) {
            Some(v) => v,
            None => return None,
        };
        let display_name = match read_text_header(headers, cfg.display_name_header.as_str()) {
            Some(v) => v,
            None => return None,
        };
        let email = read_text_header(headers, cfg.email_header.as_str());
        let raw = match read_text_header(headers, cfg.roles_header.as_str()) {
            Some(v) => v,
            None => return None,
        };
        let roles = roles_from_header(raw.as_str());
        match find_user_role(&roles, &cfg.user_role_prefixes) {
            None => None,
            Some(i) => {
                let user_role = roles[i].clone();
                Some(User { username, display_name, email, roles, user_role })
            },
        }
    }
}

proof fn lemma_or_zero(acc: u8, x: u8, y: u8)
    ensures
        (acc | (x ^ y)) == 0 <==> (acc == 0 && x == y),
{
    assert((acc | (x ^ y)) == 0 <==> (acc == 0 && x == y)) by (bit_vector);
}

/// Compares two byte strings in time that depends on their length only, not
/// on where they first differ.
pub fn equal_bytes_constant_time(a: &[u8], b: &[u8]) -> (r: bool)
    ensures
        r == (a@ == b@),
{
    if a.len() != b.len() {
        return false;
    }
    let mut acc: u8 = 0;
    let mut i: usize = 0;
    while i < a.len()
        invariant
            a@.len() == b@.len(),
            i <= a@.len(),
            acc == 0 <==> forall|k: int| 0 <= k < i ==> a@[k] == b@[k],
        decreases a.len() - i,
    {
        proof {
            lemma_or_zero(acc, a@[i as int], b@[i as int]);
        }
        acc = acc | (a[i] ^ b[i]);
        assert(acc == 0 <==> forall|k: int| 0 <= k < i + 1 ==> a@[k] == b@[k]) by {
            if acc == 0 {
                assert forall|k: int| 0 <= k < i + 1 implies a@[k] == b@[k] by {
                    if k == i {
                    }
                }
            }
        }
        i = i + 1;
    }
    assert(acc == 0 ==> a@ =~= b@);
    acc == 0
}

/// Whether the request carries the configured trusted-outside key, byte for
/// byte. Without a configured key, nobody is trusted.
pub fn is_trusted_external(headers: &Vec<Header>, key: &Option<String>) -> (r: bool)
    ensures
        r == (key is Some && header_value(headers@, TRUSTED_KEY_HEADER@) == Some(encode_utf8(key->Some_0@))),
{
    match key {
        None => false,
        Some(k) => match find_header(headers, TRUSTED_KEY_HEADER) {
            None => false,
            Some(i) => equal_bytes_constant_time(headers[i].value.as_slice(), k.as_str().as_bytes()),
        },
    }
}

/// Headers whose roles hold no user role describe no user, so header-mode
/// resolution gives anonymity.
pub proof fn lemma_header_without_user_role(headers: Seq<Header>, cfg: AuthConfig, raw: Seq<char>)
    requires
        header_text(headers, cfg.roles_header@) == Some(raw),
        forall|k: int|
            0 <= k < header_roles(raw).len() ==> !is_user_role(#[trigger] header_roles(raw)[k], cfg.user_role_prefixes@),
    ensures
        header_user(headers, cfg) is None,
{
    lemma_no_user_role(header_roles(raw), cfg.user_role_prefixes@);
}

} // verus!
