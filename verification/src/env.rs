//! Settings read from environment variables: the address to listen on and
//! the largest request body accepted.

use vstd::prelude::*;
use crate::text::{digits_value, is_digit};

verus! {

/// Why an environment setting could not be used.
#[derive(Debug)]
pub enum Error {
    /// `ENVCMP_CACHE_SIZE` is not a number of elements.
    CacheSize(core::num::ParseIntError),
    /// `ENVCMP_DATABASE_URL` holds non-Unicode data.
    DatabasePath,
    /// `ENVCMP_MAX_BODY_SIZE` is not a number of bytes.
    MaxBodySize(core::num::ParseIntError),
    /// `ENVCMP_ADDRESS_PORT` is not of the form `host:port`.
    AddressPort,
    /// No key could be made from `ENVCMP_SIGNING_KEY`.
    SigningKey(String),
}

#[verifier::external_type_specification]
#[verifier::external_body]
pub struct ExParseIntError(core::num::ParseIntError);

/// The number that std reads from `s` as a `usize`: an optional `+`
/// followed by one or more decimal digits, of a value that fits in a
/// `usize`; `None` for any other text.
pub open spec fn parsed_usize(s: Seq<char>) -> Option<usize> {
    let digits = if s.len() > 0 && s[0] == '+' {
        s.skip(1)
    } else {
        s
    };
    if digits.len() > 0 && (forall|i: int| 0 <= i < digits.len() ==> is_digit(#[trigger] digits[i]))
        && digits_value(digits) <= usize::MAX {
        Some(digits_value(digits) as usize)
    } else {
        None
    }
}

/// std `str::parse::<usize>`, which the std documentation describes as
/// accepting an optional `+` sign followed by decimal digits only, and
/// failing on any other text or on a value too large for `usize`.  Which
/// kind of failure the error reports is left unsaid.
#[verifier::external_body]
fn parse_usize(s: &str) -> (r: core::result::Result<usize, core::num::ParseIntError>)
    ensures
        match parsed_usize(s@) {
            Some(v) => r matches Ok(w) && w == v,
            None => r is Err,
        },
{
    s.parse::<usize>()
}

/// The address to listen on: the value of `ENVCMP_ADDRESS_PORT` when it is
/// set, `0.0.0.0:3000` otherwise.
pub fn address_port(var: Option<String>) -> (r: String)
    ensures
        r@ == match var {
            Some(v) => v@,
            None => "0.0.0.0:3000"@,
        },
{
    match var {
        Some(v) => v,
        None => "0.0.0.0:3000".to_owned(),
    }
}

/// The largest request body accepted, in bytes: the number that
/// `ENVCMP_MAX_BODY_SIZE` holds when it is set (an error when it holds no
/// number), 1 MiB otherwise.
pub fn max_body_size(var: Option<String>) -> (r: core::result::Result<usize, Error>)
    ensures
        match var {
            None => r matches Ok(n) && n == 1024 * 1024,
            Some(v) => match parsed_usize(v@) {
                Some(n) => r matches Ok(m) && m == n,
                None => r matches Err(Error::MaxBodySize(_)),
            },
        },
{
    match var {
        None => Ok(1024 * 1024),
        Some(v) => match parse_usize(v.as_str()) {
            Ok(n) => Ok(n),
            Err(e) => Err(Error::MaxBodySize(e)),
        },
    }
}


/// The display text of an environment error, given the display text of
/// the parse error it carries (if any).
pub open spec fn env_error_text(e: Error, detail: Seq<char>) -> Seq<char> {
    match e {
        Error::CacheSize(_) => "failed to parse ENVCMP_CACHE_SIZE, expected number of elements: "@ + detail,
        Error::DatabasePath => "failed to parse ENVCMP_DATABASE_URL, contains non-Unicode data"@,
        Error::MaxBodySize(_) => "failed to parse ENVCMP_MAX_BODY_SIZE, expected number of bytes: "@ + detail,
        Error::AddressPort => "failed to parse ENVCMP_ADDRESS_PORT, expected `host:port`"@,
        Error::SigningKey(s) => "failed to generate key from ENVCMP_SIGNING_KEY: "@ + s@,
    }
}

impl Error {
    /// The message of this error; a parse error's own display text follows
    /// the message where the error carries one.
    pub fn to_display_string(&self) -> (r: String)
        ensures
            match *self {
                Error::CacheSize(p) => exists|m: String|
                    vstd::string::to_string_from_display_ensures::<core::num::ParseIntError>(&p, m)
                        && r@ == env_error_text(*self, m@),
                Error::MaxBodySize(p) => exists|m: String|
                    vstd::string::to_string_from_display_ensures::<core::num::ParseIntError>(&p, m)
                        && r@ == env_error_text(*self, m@),
                _ => r@ == env_error_text(*self, Seq::empty()),
            },
    {
        match self {
            Error::CacheSize(p) => {
                let m = p.to_string();
                let mut s = "failed to parse ENVCMP_CACHE_SIZE, expected number of elements: ".to_owned();
                s.append(m.as_str());
                assert(vstd::string::to_string_from_display_ensures::<core::num::ParseIntError>(p, m)
                    && s@ == env_error_text(*self, m@));
                s
            },
            Error::DatabasePath => "failed to parse ENVCMP_DATABASE_URL, contains non-Unicode data".to_owned(),
            Error::MaxBodySize(p) => {
                let m = p.to_string();
                let mut s = "failed to parse ENVCMP_MAX_BODY_SIZE, expected number of bytes: ".to_owned();
                s.append(m.as_str());
                assert(vstd::string::to_string_from_display_ensures::<core::num::ParseIntError>(p, m)
                    && s@ == env_error_text(*self, m@));
                s
            },
            Error::AddressPort => "failed to parse ENVCMP_ADDRESS_PORT, expected `host:port`".to_owned(),
            Error::SigningKey(k) => {
                let mut s = "failed to generate key from ENVCMP_SIGNING_KEY: ".to_owned();
                s.append(k.as_str());
                s
            },
        }
    }
}

} // verus!
