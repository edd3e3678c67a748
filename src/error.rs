//! Errors meant for the person who issued a command, as opposed to internal
//! failures that are only logged.
use vstd::prelude::*;

verus! {

/// An error whose message is shown to the user as it is.
#[derive(Clone, Debug)]
pub struct UserError {
    pub message: String,
}

impl UserError {
    /// A user error with a copy of `s` as its message.
    pub fn from_str(s: &str) -> (r: UserError)
        ensures
            r.message@ == s@,
    {
        UserError { message: String::from_str(s) }
    }
}

impl From<String> for UserError {
    fn from(value: String) -> (r: UserError) {
        UserError { message: value }
    }
}

impl vstd::std_specs::convert::FromSpecImpl<String> for UserError {
    open spec fn obeys_from_spec() -> bool {
        true
    }

    open spec fn from_spec(v: String) -> UserError {
        UserError { message: v }
    }
}

/// What a command's caller is told when the command fails: a user error's
/// own message, or a fixed notice for anything else, whose details go to the
/// log only.
pub fn error_reply(user: Option<&UserError>) -> (r: String)
    ensures
        (user matches Some(e) ==> r@ == e.message@),
        user is None ==> r@ == "An internal error occurred"@,
{
    match user {
        Some(e) => e.message.clone(),
        None => String::from_str("An internal error occurred"),
    }
}

} // verus!
