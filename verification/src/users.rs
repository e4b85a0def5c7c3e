//! Creation of users: the answer for a created user and the errors for a
//! refused one.

use vstd::prelude::*;
use crate::errors::{Error, ErrorType, HttpError, HttpErrorBody, ValidationErrorItem};
use crate::text::str_eq;

verus! {

/// A wrapper type for all requests/responses from these routes.
#[derive(Debug, Clone)]
pub struct UserBody<T> {
    pub user: T,
}

/// A user to create.
#[derive(Debug, Clone)]
pub struct NewUser {
    pub username: String,
    pub email: String,
    pub password: String,
}

/// A created user, as it is answered.
#[derive(Debug, Clone)]
pub struct User {
    pub email: String,
    pub token: String,
    pub username: String,
    pub bio: String,
    pub image: Option<String>,
}

/// The answer for a created user: its email and username, the token that
/// the caller issued for it, an empty bio and no image.
pub fn created_user(new_user: NewUser, token: String) -> (r: UserBody<User>)
    ensures
        r.user.email == new_user.email,
        r.user.username == new_user.username,
        r.user.token == token,
        r.user.bio@ == Seq::<char>::empty(),
        r.user.image is None,
{
    UserBody {
        user: User {
            email: new_user.email,
            token,
            username: new_user.username,
            bio: String::new(),
            image: None,
        },
    }
}

/// Whether `items` is the single validation item with the given location,
/// message and type.
pub open spec fn single_item(
    items: Seq<ValidationErrorItem>,
    loc: Seq<Seq<char>>,
    msg: Seq<char>,
    ty: Seq<char>,
) -> bool {
    &&& items.len() == 1
    &&& items[0].loc@.map_values(|s: String| s@) == loc
    &&& items[0].msg@ == msg
    &&& items[0].ty@ == ty
}

fn validation_item(loc: Vec<String>, msg: &str, ty: &str) -> (v: Vec<ValidationErrorItem>)
    ensures
        v@.len() == 1,
        v@[0].loc == loc,
        v@[0].msg@ == msg@,
        v@[0].ty@ == ty@,
{
    let mut v: Vec<ValidationErrorItem> = Vec::new();
    v.push(ValidationErrorItem { loc, msg: msg.to_owned(), ty: ty.to_owned() });
    v
}

/// The uniqueness constraints of the user table that have an answer of
/// their own.
pub open spec fn is_user_constraint(c: Seq<char>) -> bool {
    c == "user_username_key"@ || c == "user_email_key"@
}

/// Whether `e` answers a user refused by the constraint `c`: `422` with one
/// validation item, `username taken` at `body.filterTypes` for a taken
/// username, `email taken` at `email` for a taken email.
pub open spec fn is_constraint_error(c: Seq<char>, e: Error) -> bool {
    &&& e.trace@.len() == 0
    &&& e.typ matches ErrorType::Http(h) && h.status_of().code() == 422 && (h.body_of() matches HttpErrorBody::Validation {
        detail } && if c == "user_username_key"@ {
        single_item(detail@, seq!["body"@, "filterTypes"@], "username taken"@, "value_error"@)
    } else {
        single_item(detail@, seq!["email"@], "email taken"@, "value_error"@)
    })
}

/// The error for a user refused by a uniqueness constraint of the user
/// table: a taken username or a taken email is answered with `422` and one
/// validation item; any other constraint has no answer of its own.
pub fn user_constraint_error(constraint: &str) -> (r: Option<Error>)
    ensures
        is_user_constraint(constraint@) ==> (r matches Some(e) && is_constraint_error(constraint@, e)),
        !is_user_constraint(constraint@) ==> r is None,
{
    proof {
        reveal_strlit("user_username_key");
        reveal_strlit("user_email_key");
        assert("user_username_key"@[5] != "user_email_key"@[5]);
    }
    if str_eq(constraint, "user_username_key") {
        let mut loc: Vec<String> = Vec::new();
        loc.push("body".to_owned());
        loc.push("filterTypes".to_owned());
        let items = validation_item(loc, "username taken", "value_error");
        let e = Error::http(HttpError::unprocessable_entity(items));
        assert(items@[0].loc@.map_values(|s: String| s@) =~= seq!["body"@, "filterTypes"@]);
        Some(e)
    } else if str_eq(constraint, "user_email_key") {
        let mut loc: Vec<String> = Vec::new();
        loc.push("email".to_owned());
        let items = validation_item(loc, "email taken", "value_error");
        assert(items@[0].loc@.map_values(|s: String| s@) =~= seq!["email"@]);
        Some(Error::http(HttpError::unprocessable_entity(items)))
    } else {
        None
    }
}


/// Whether `r` answers a failed insertion of a user, given the constraint
/// the database reported (if any) and the database's failure: a
/// constraint of the user table has its own answer, any other failure is a
/// database error raised at `create_user` with the failure's display text.
pub open spec fn is_insert_failure(constraint: Option<Seq<char>>, e: sea_orm::DbErr, r: Error) -> bool {
    match constraint {
        Some(c) if is_user_constraint(c) => is_constraint_error(c, r),
        _ => r.trace@.len() == 1 && r.trace@[0]@ == "create_user"@ && (r.typ matches ErrorType::Database(m)
            && vstd::string::to_string_from_display_ensures::<sea_orm::DbErr>(&e, m)),
    }
}

/// The answer to a failed insertion of a user, given the constraint that
/// the database reported as violated (if any).
pub fn insert_failure_error(constraint: Option<String>, e: sea_orm::DbErr) -> (r: Error)
    ensures
        is_insert_failure(
            match constraint {
                Some(c) => Some(c@),
                None => None,
            },
            e,
            r,
        ),
{
    if let Some(c) = &constraint {
        if let Some(err) = user_constraint_error(c.as_str()) {
            return err;
        }
    }
    Error::database(e.to_string(), "create_user")
}

} // verus!
