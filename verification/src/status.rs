//! HTTP status codes as plain numbers, with the reason phrases of the
//! `http` crate.

use vstd::prelude::*;
use crate::text::{decimal, push_char, push_decimal};

verus! {

/// An HTTP status code: a number from 100 to 999, as the `http` crate
/// accepts them.
#[derive(Debug, Clone, Copy, PartialEq, Eq)]
pub struct StatusCode {
    code: u16,
}

/// The reason phrase that the `http` crate gives a status code, if any.
pub uninterp spec fn canonical_reason(code: u16) -> Option<Seq<char>>;

/// The reason phrases of the status codes that this library answers with,
/// as the `http` crate's table gives them.
pub open spec fn known_reason(code: u16) -> Option<Seq<char>> {
    if code == 200 {
        Some("OK"@)
    } else if code == 204 {
        Some("No Content"@)
    } else if code == 400 {
        Some("Bad Request"@)
    } else if code == 401 {
        Some("Unauthorized"@)
    } else if code == 403 {
        Some("Forbidden"@)
    } else if code == 404 {
        Some("Not Found"@)
    } else if code == 409 {
        Some("Conflict"@)
    } else if code == 422 {
        Some("Unprocessable Entity"@)
    } else if code == 500 {
        Some("Internal Server Error"@)
    } else if code == 501 {
        Some("Not Implemented"@)
    } else {
        None
    }
}

/// `http::StatusCode::from_u16(code)` followed by `canonical_reason()`:
/// the standard reason phrase of `code`, or `None` for a code that has
/// none.  Its result is claimed to be `canonical_reason(code)`, a function
/// of the code alone (a fixed table in the `http` crate); for the codes
/// of `known_reason` the phrase that the table holds is claimed too.
#[verifier::external_body]
fn reason_phrase(code: u16) -> (r: Option<&'static str>)
    requires
        100 <= code <= 999,
    ensures
        match r {
            Some(p) => canonical_reason(code) == Some(p@),
            None => canonical_reason(code) is None,
        },
        known_reason(code) is Some ==> r is Some && r->Some_0@ == known_reason(code)->Some_0,
{
    match http::StatusCode::from_u16(code) {
        Ok(status) => status.canonical_reason(),
        Err(_) => None,
    }
}

/// How the `http` crate displays a status code: the number, a space, and
/// the reason phrase (or `<unknown status code>`).
pub open spec fn status_text(code: u16) -> Seq<char> {
    decimal(code as nat) + seq![' '] + match canonical_reason(code) {
        Some(p) => p,
        None => "<unknown status code>"@,
    }
}

impl StatusCode {
    #[verifier::type_invariant]
    spec fn in_range(self) -> bool {
        100 <= self.code <= 999
    }

    /// The number of this status code.
    pub closed spec fn code(self) -> u16 {
        self.code
    }

    /// The status code with number `code`, if `code` lies between 100 and
    /// 999 (http's `StatusCode::from_u16`).
    pub fn from_u16(code: u16) -> (r: Option<StatusCode>)
        ensures
            r is Some <==> 100 <= code <= 999,
            r matches Some(s) ==> s.code() == code,
    {
        if 100 <= code && code <= 999 {
            Some(StatusCode { code })
        } else {
            None
        }
    }

    /// The number of this status code.
    pub fn as_u16(&self) -> (r: u16)
        ensures
            r == self.code(),
            100 <= r <= 999,
    {
        proof {
            use_type_invariant(self);
        }
        self.code
    }

    /// 200 OK
    pub fn ok() -> (s: StatusCode)
        ensures
            s.code() == 200,
    {
        StatusCode { code: 200 }
    }

    /// 204 No Content
    pub fn no_content() -> (s: StatusCode)
        ensures
            s.code() == 204,
    {
        StatusCode { code: 204 }
    }

    /// 400 Bad Request
    pub fn bad_request() -> (s: StatusCode)
        ensures
            s.code() == 400,
    {
        StatusCode { code: 400 }
    }

    /// 401 Unauthorized
    pub fn unauthorized() -> (s: StatusCode)
        ensures
            s.code() == 401,
    {
        StatusCode { code: 401 }
    }

    /// 403 Forbidden
    pub fn forbidden() -> (s: StatusCode)
        ensures
            s.code() == 403,
    {
        StatusCode { code: 403 }
    }

    /// 404 Not Found
    pub fn not_found() -> (s: StatusCode)
        ensures
            s.code() == 404,
    {
        StatusCode { code: 404 }
    }

    /// 409 Conflict
    pub fn conflict() -> (s: StatusCode)
        ensures
            s.code() == 409,
    {
        StatusCode { code: 409 }
    }

    /// 422 Unprocessable Entity
    pub fn unprocessable_entity() -> (s: StatusCode)
        ensures
            s.code() == 422,
    {
        StatusCode { code: 422 }
    }

    /// 500 Internal Server Error
    pub fn internal_server_error() -> (s: StatusCode)
        ensures
            s.code() == 500,
    {
        StatusCode { code: 500 }
    }

    /// 501 Not Implemented
    pub fn not_implemented() -> (s: StatusCode)
        ensures
            s.code() == 501,
    {
        StatusCode { code: 501 }
    }

    /// The standard reason phrase of this status code, if it has one.
    pub fn canonical_reason(&self) -> (r: Option<&'static str>)
        ensures
            match r {
                Some(p) => canonical_reason(self.code()) == Some(p@),
                None => canonical_reason(self.code()) is None,
            },
    {
        proof {
            use_type_invariant(self);
        }
        reason_phrase(self.code)
    }

    /// Appends the display form of this status code to `s`.
    pub fn push_display(&self, s: &mut String)
        ensures
            final(s)@ == old(s)@ + status_text(self.code()),
    {
        let code: u16 = self.as_u16();
        push_decimal(s, code as u64);
        push_char(s, ' ');
        match self.canonical_reason() {
            Some(p) => s.append(p),
            None => s.append("<unknown status code>"),
        }
        assert(s@ =~= old(s)@ + status_text(self.code()));
    }

    /// The display form of this status code, e.g. `404 Not Found`.
    pub fn to_display_string(&self) -> (r: String)
        ensures
            r@ == status_text(self.code()),
    {
        let mut s = String::new();
        self.push_display(&mut s);
        assert(s@ =~= status_text(self.code()));
        s
    }
}

} // verus!
