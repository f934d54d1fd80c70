use vstd::prelude::*;
use crate::config::opt_text;
use crate::roles::texts;
use crate::user::{identity_user, AuthError, User, UserView};

verus! {

/// The verdict of the callback endpoint, as its JSON body states it.
#[derive(Debug)]
pub enum CallbackReply {
    /// `"outcome": "user"`, with the user's fields.
    User { username: String, display_name: String, email: Option<String>, roles: Vec<String> },
    /// `"outcome": "no-user"`.
    NoUser,
}

/// What came back from the callback endpoint: its status, and its body where
/// the body parses as a reply.
#[derive(Debug)]
pub struct CallbackResponse {
    pub status: u16,
    pub reply: Option<CallbackReply>,
}

/// The status that a callback answer must carry.
pub const STATUS_OK: u16 = 200;

/// The user that a callback answer reports: `Ok(None)` for no user, an
/// error for a failed call, another status, a body that does not parse, or
/// a user without a user role.
pub open spec fn callback_outcome(
    response: Option<CallbackResponse>,
    prefixes: Seq<String>,
) -> Result<Option<UserView>, AuthError> {
    match response {
        None => Err(AuthError::BadGateway),
        Some(resp) => if resp.status != STATUS_OK {
            Err(AuthError::BadGateway)
        } else {
            match resp.reply {
                None => Err(AuthError::BadGateway),
                Some(CallbackReply::NoUser) => Ok(None),
                Some(CallbackReply::User { username, display_name, email, roles }) => match identity_user(
                    username@,
                    display_name@,
                    opt_text(email),
                    texts(roles@),
                    prefixes,
                ) {
                    Some(u) => Ok(Some(u)),
                    None => Err(AuthError::MissingUserRole),
                },
            }
        },
    }
}

impl User {
    /// Interprets the callback endpoint's answer; `None` stands for a call
    /// that failed before an answer came.
    pub fn from_callback(response: Option<CallbackResponse>, prefixes: &Vec<String>) -> (r: Result<
        Option<User>,
        AuthError,
    >)
        ensures
            match r {
                Ok(Some(u)) => callback_outcome(response, prefixes@) == Ok::<Option<UserView>, AuthError>(Some(u@))
                    && u.wf(prefixes@),
                Ok(None) => callback_outcome(response, prefixes@) == Ok::<Option<UserView>, AuthError>(None),
                Err(e) => callback_outcome(response, prefixes@) == Err::<Option<UserView>, AuthError>(e),
            },
    {
        let resp = match response {
            None => return Err(AuthError::BadGateway),
            Some(resp) => resp,
        };
        if resp.status != STATUS_OK {
            return Err(AuthError::BadGateway);
        }
        match resp.reply {
            None => Err(AuthError::BadGateway),
            Some(CallbackReply::NoUser) => Ok(None),
            Some(CallbackReply::User { username, display_name, email, roles }) => {
                match User::from_parts(username, display_name, email, roles, prefixes) {
                    Ok(u) => Ok(Some(u)),
                    Err(e) => Err(e),
                }
            },
        }
    }
}

} // verus!
