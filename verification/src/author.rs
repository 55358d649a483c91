//! Who wrote a post or a comment: the explicit author, else the display name
//! of the user that the entry refers to.

use vstd::prelude::*;
use crate::model::text_of;
use crate::response::UserRef;

verus! {

/// The display name of the user that an entry refers to, if it refers to one
/// and that user has one.
pub open spec fn display_name(user: Option<UserRef>) -> Option<Seq<char>> {
    match user {
        Some(u) => text_of(u.display_name),
        None => None,
    }
}

/// The author of an entry: the explicit author if there is one, else the
/// display name of its user, else nobody.
pub open spec fn resolved_author(author: Option<String>, user: Option<UserRef>) -> Option<
    Seq<char>,
> {
    match author {
        Some(a) => Some(a@),
        None => display_name(user),
    }
}

/// The name under which an entry without any author goes.
pub open spec fn anonymous() -> Seq<char> {
    "anonymous"@
}

/// The author of an entry, or the name for nobody.
pub open spec fn author_or_anonymous(author: Option<String>, user: Option<UserRef>) -> Seq<char> {
    match resolved_author(author, user) {
        Some(name) => name,
        None => anonymous(),
    }
}

/// Resolves the author of an entry.
pub fn resolve_author(author: Option<String>, user: Option<UserRef>) -> (name: Option<String>)
    ensures
        text_of(name) == resolved_author(author, user),
{
    match author {
        Some(a) => Some(a),
        None => match user {
            Some(u) => u.display_name,
            None => None,
        },
    }
}

/// Resolves the author of an entry that may go without one.
pub fn resolve_author_or_anonymous(author: Option<String>, user: Option<UserRef>) -> (name: String)
    ensures
        name@ == author_or_anonymous(author, user),
{
    match resolve_author(author, user) {
        Some(name) => name,
        None => "anonymous".to_owned(),
    }
}

} // verus!
