//! The service's error values: a general [`Error`] with its trace of
//! locations, and [`HttpError`], an error that is answered over HTTP with
//! its own status and body.

use vstd::prelude::*;
use crate::status::{status_text, StatusCode};
use crate::text::{debug_quoted, debug_str, decimal, join_with, lemma_join_with_push, push_char, push_decimal};
use crate::json::{json_string, json_string_literal};

verus! {

broadcast use vstd::string::group_string_axioms;

/// A short-hand version of a [std::result::Result] that always returns an
/// [Error].
pub type Result<T> = core::result::Result<T, Error>;

// =============================================================================================
// Generic Error
// =============================================================================================

/// What kind of failure an [`Error`] reports.
#[derive(Debug, Clone)]
pub enum ErrorType {
    /// A generic error
    Generic(String),
    /// Database error
    Database(String),
    /// Queue error
    Queue(String),
    /// Validation error
    Validation(String),
    /// Any kind of HttpError
    Http(HttpError),
    /// Cache error
    Cache(String),
    /// Timeout error
    Timeout(String),
}

/// The error type returned by the service.
#[derive(Debug)]
pub struct Error {
    /// The locations the error passed through, oldest first. Used for
    /// debugging non-HTTP errors.
    pub trace: Vec<&'static str>,
    pub typ: ErrorType,
}

/// What the service answers for an error: its HTTP status and body.
#[derive(Debug, Clone)]
pub enum ErrorResponseBody {
    /// The body of an [`HttpError`].
    Http(HttpErrorBody),
    /// The empty JSON object `{}`.
    EmptyObject,
}

impl Error {
    /// A generic error raised at `location`.
    pub fn new(s: String, location: &'static str) -> (e: Self)
        ensures
            e.trace@ == seq![location],
            e.typ == ErrorType::Generic(s),
    {
        Self { trace: Self::init_trace(location), typ: ErrorType::Generic(s) }
    }

    /// A generic error raised at `location`.
    pub fn generic(s: String, location: &'static str) -> (e: Self)
        ensures
            e.trace@ == seq![location],
            e.typ == ErrorType::Generic(s),
    {
        Self { trace: Self::init_trace(location), typ: ErrorType::Generic(s) }
    }

    /// A database error raised at `location`.
    pub fn database(s: String, location: &'static str) -> (e: Self)
        ensures
            e.trace@ == seq![location],
            e.typ == ErrorType::Database(s),
    {
        Self { trace: Self::init_trace(location), typ: ErrorType::Database(s) }
    }

    /// A queue error raised at `location`.
    pub fn queue(s: String, location: &'static str) -> (e: Self)
        ensures
            e.trace@ == seq![location],
            e.typ == ErrorType::Queue(s),
    {
        Self { trace: Self::init_trace(location), typ: ErrorType::Queue(s) }
    }

    /// A validation error raised at `location`.
    pub fn validation(s: String, location: &'static str) -> (e: Self)
        ensures
            e.trace@ == seq![location],
            e.typ == ErrorType::Validation(s),
    {
        Self { trace: Self::init_trace(location), typ: ErrorType::Validation(s) }
    }

    /// An error answered over HTTP; it carries no trace.
    pub fn http(h: HttpError) -> (e: Self)
        ensures
            e.trace@.len() == 0,
            e.typ == ErrorType::Http(h),
    {
        Self { trace: Vec::new(), typ: ErrorType::Http(h) }
    }

    /// A cache error raised at `location`.
    pub fn cache(s: String, location: &'static str) -> (e: Self)
        ensures
            e.trace@ == seq![location],
            e.typ == ErrorType::Cache(s),
    {
        Self { trace: Self::init_trace(location), typ: ErrorType::Cache(s) }
    }

    fn init_trace(location: &'static str) -> (trace: Vec<&'static str>)
        ensures
            trace@ == seq![location],
    {
        // somewhat arbitrary capacity, but avoids reallocation when building an
        // error trace later on
        let mut trace = Vec::with_capacity(10);
        trace.push(location);
        trace
    }

    /// The HTTP status and body that answer this error: an [`HttpError`]
    /// is answered with its own status and body, every other error with
    /// `500 Internal Server Error` and an empty JSON object.
    pub fn into_response_parts(self) -> (r: (StatusCode, ErrorResponseBody))
        ensures
            match self.typ {
                ErrorType::Http(h) => r.0 == h.status_of() && r.1 == ErrorResponseBody::Http(h.body_of()),
                _ => r.0.code() == 500 && r.1 == ErrorResponseBody::EmptyObject,
            },
    {
        match self.typ {
            ErrorType::Http(s) => {
                let (status, body) = s.into_response_parts();
                (status, ErrorResponseBody::Http(body))
            },
            _ => (StatusCode::internal_server_error(), ErrorResponseBody::EmptyObject),
        }
    }
}

// ================================================================================================
// Validation Error
// ================================================================================================

/// Validation errors have their own schema to provide context for invalid
/// requests eg. mismatched types and out of bounds values. There may be any
/// number of these per 422 UNPROCESSABLE ENTITY error.
#[derive(Debug, Clone)]
pub struct ValidationErrorItem {
    /// The location as a [`Vec`] of [`String`]s -- often in the form `["body",
    /// "field_name"]`, `["query", "field_name"]`, etc. They may, however, be
    /// arbitarily deep.
    pub loc: Vec<String>,
    /// The message accompanying the validation error item.
    pub msg: String,
    /// The type of error, often "type_error" or "value_error", but sometimes
    /// with more context like as "value_error.number.not_ge"
    pub ty: String,
}

// ================================================================================================
// HTTP Error Section
// ================================================================================================

/// The JSON body of an [`HttpError`].
#[derive(Debug, Clone)]
pub enum HttpErrorBody {
    Standard { code: String, detail: String },
    Validation { detail: Vec<ValidationErrorItem> },
}

/// The characters of a standard body's code and detail, if it is one.
pub open spec fn standard_view(body: HttpErrorBody) -> Option<(Seq<char>, Seq<char>)> {
    match body {
        HttpErrorBody::Standard { code, detail } => Some((code@, detail@)),
        HttpErrorBody::Validation { .. } => None,
    }
}

/// `o`'s characters, or `default` when `o` is `None`.
pub open spec fn or_default(o: Option<String>, default: Seq<char>) -> Seq<char> {
    match o {
        Some(s) => s@,
        None => default,
    }
}

fn unwrap_or_literal(o: Option<String>, default: &str) -> (r: String)
    ensures
        r@ == or_default(o, default@),
{
    match o {
        Some(s) => s,
        None => default.to_owned(),
    }
}

/// An error that is answered over HTTP with `status` and a JSON body.
#[derive(Debug, Clone)]
pub struct HttpError {
    pub status: StatusCode,
    body: HttpErrorBody,
}

/// Why a JSON request body was refused before it reached a handler.
#[derive(Debug, Clone)]
pub enum SchemaRejection {
    /// The body was not accepted as JSON; the text describes why.
    Json(String),
    /// The body did not deserialize into the expected type.
    Serde,
    /// The body did not satisfy the JSON schema.
    Schema,
}

impl HttpError {
    /// The status this error is answered with.
    pub closed spec fn status_of(self) -> StatusCode {
        self.status
    }

    /// The body this error is answered with.
    pub closed spec fn body_of(self) -> HttpErrorBody {
        self.body
    }

    /// The body this error is answered with.
    pub fn body(&self) -> (b: &HttpErrorBody)
        ensures
            *b == self.body_of(),
    {
        &self.body
    }

    fn new_standard(status: StatusCode, code: String, detail: String) -> (e: Self)
        ensures
            e.status_of() == status,
            e.body_of() == (HttpErrorBody::Standard { code, detail }),
    {
        Self { status, body: HttpErrorBody::Standard { code, detail } }
    }

    /// 400, with code `generic_error` and detail `Generic error` unless given.
    pub fn bad_request(code: Option<String>, detail: Option<String>) -> (e: Self)
        ensures
            e.status_of().code() == 400,
            standard_view(e.body_of()) == Some(
                (or_default(code, "generic_error"@), or_default(detail, "Generic error"@)),
            ),
    {
        Self::new_standard(
            StatusCode::bad_request(),
            unwrap_or_literal(code, "generic_error"),
            unwrap_or_literal(detail, "Generic error"),
        )
    }

    /// 404, with code `not_found` and detail `Entity not found` unless given.
    pub fn not_found(code: Option<String>, detail: Option<String>) -> (e: Self)
        ensures
            e.status_of().code() == 404,
            standard_view(e.body_of()) == Some(
                (or_default(code, "not_found"@), or_default(detail, "Entity not found"@)),
            ),
    {
        Self::new_standard(
            StatusCode::not_found(),
            unwrap_or_literal(code, "not_found"),
            unwrap_or_literal(detail, "Entity not found"),
        )
    }

    /// 401, with code `authentication_failed` and detail `Incorrect
    /// authentication credentials.` unless given.
    pub fn unauthorized(code: Option<String>, detail: Option<String>) -> (e: Self)
        ensures
            e.status_of().code() == 401,
            standard_view(e.body_of()) == Some(
                (
                    or_default(code, "authentication_failed"@),
                    or_default(detail, "Incorrect authentication credentials."@),
                ),
            ),
    {
        Self::new_standard(
            StatusCode::unauthorized(),
            unwrap_or_literal(code, "authentication_failed"),
            unwrap_or_literal(detail, "Incorrect authentication credentials."),
        )
    }

    /// 403, with code `insufficient access` and detail `Insufficient access
    /// for the given operation.` unless given.
    pub fn permission_denied(code: Option<String>, detail: Option<String>) -> (e: Self)
        ensures
            e.status_of().code() == 403,
            standard_view(e.body_of()) == Some(
                (
                    or_default(code, "insufficient access"@),
                    or_default(detail, "Insufficient access for the given operation."@),
                ),
            ),
    {
        Self::new_standard(
            StatusCode::forbidden(),
            unwrap_or_literal(code, "insufficient access"),
            unwrap_or_literal(detail, "Insufficient access for the given operation."),
        )
    }

    /// 409, with code `conflict` and detail `A conflict has occurred` unless
    /// given.
    pub fn conflict(code: Option<String>, detail: Option<String>) -> (e: Self)
        ensures
            e.status_of().code() == 409,
            standard_view(e.body_of()) == Some(
                (or_default(code, "conflict"@), or_default(detail, "A conflict has occurred"@)),
            ),
    {
        Self::new_standard(
            StatusCode::conflict(),
            unwrap_or_literal(code, "conflict"),
            unwrap_or_literal(detail, "A conflict has occurred"),
        )
    }

    /// 422, with the given validation items as its body.
    pub fn unprocessable_entity(detail: Vec<ValidationErrorItem>) -> (e: Self)
        ensures
            e.status_of().code() == 422,
            e.body_of() == (HttpErrorBody::Validation { detail }),
    {
        Self { status: StatusCode::unprocessable_entity(), body: HttpErrorBody::Validation { detail } }
    }

    /// 500, with code `server_error` and detail `Internal Server Error`
    /// unless given.
    pub fn internal_server_error(code: Option<String>, detail: Option<String>) -> (e: Self)
        ensures
            e.status_of().code() == 500,
            standard_view(e.body_of()) == Some(
                (or_default(code, "server_error"@), or_default(detail, "Internal Server Error"@)),
            ),
    {
        Self::new_standard(
            StatusCode::internal_server_error(),
            unwrap_or_literal(code, "server_error"),
            unwrap_or_literal(detail, "Internal Server Error"),
        )
    }

    /// 501, with code `not_implemented` and detail `This API endpoint is
    /// not yet implemented.` unless given.
    pub fn not_implemented(code: Option<String>, detail: Option<String>) -> (e: Self)
        ensures
            e.status_of().code() == 501,
            standard_view(e.body_of()) == Some(
                (
                    or_default(code, "not_implemented"@),
                    or_default(detail, "This API endpoint is not yet implemented."@),
                ),
            ),
    {
        Self::new_standard(
            StatusCode::not_implemented(),
            unwrap_or_literal(code, "not_implemented"),
            unwrap_or_literal(detail, "This API endpoint is not yet implemented."),
        )
    }

    /// The error that answers a refused JSON request body: a body that is
    /// not JSON is a server error carrying the rejection's text, any other
    /// refusal a bad request with detail `invalid request`.
    pub fn from_rejection(rejection: SchemaRejection) -> (e: Self)
        ensures
            match rejection {
                SchemaRejection::Json(j) => e.status_of().code() == 500 && standard_view(e.body_of())
                    == Some(("server_error"@, j@)),
                _ => e.status_of().code() == 400 && standard_view(e.body_of()) == Some(
                    ("generic_error"@, "invalid request"@),
                ),
            },
    {
        match rejection {
            SchemaRejection::Json(j) => Self::internal_server_error(None, Some(j)),
            SchemaRejection::Serde => Self::bad_request(None, Some("invalid request".to_owned())),
            SchemaRejection::Schema => Self::bad_request(None, Some("invalid request".to_owned())),
        }
    }

    /// The status and body this error is answered with.
    pub fn into_response_parts(self) -> (r: (StatusCode, HttpErrorBody))
        ensures
            r.0 == self.status_of(),
            r.1 == self.body_of(),
    {
        (self.status, self.body)
    }
}


// ================================================================================================
// Display of an HTTP error
// ================================================================================================

/// A JSON array of the given elements.
pub open spec fn json_array(parts: Seq<Seq<char>>) -> Seq<char> {
    seq!['['] + join_with(parts, seq![',']) + seq![']']
}

/// The JSON array of the given strings.
pub open spec fn json_string_array(ss: Seq<String>) -> Seq<char> {
    json_array(ss.map_values(|s: String| json_string_literal(s@)))
}

/// The JSON object of a validation item, its fields in the order `loc`,
/// `msg`, `type`.
pub open spec fn validation_item_json(item: ValidationErrorItem) -> Seq<char> {
    "{\"loc\":"@ + json_string_array(item.loc@) + ",\"msg\":"@ + json_string_literal(item.msg@)
        + ",\"type\":"@ + json_string_literal(item.ty@) + seq!['}']
}

/// The compact JSON array of the validation items.
pub open spec fn validation_json(items: Seq<ValidationErrorItem>) -> Seq<char> {
    json_array(items.map_values(|i: ValidationErrorItem| validation_item_json(i)))
}

/// The start of an HTTP error's display: `status=` and the status.
pub open spec fn status_prefix(status: StatusCode) -> Seq<char> {
    "status="@ + status_text(status.code())
}

fn push_json_string(out: &mut String, s: &str)
    ensures
        final(out)@ == old(out)@ + json_string_literal(s@),
{
    match json_string(s) {
        Ok(j) => out.append(j.as_str()),
        Err(_) => {},
    }
}

fn push_json_string_array(out: &mut String, ss: &Vec<String>)
    ensures
        final(out)@ == old(out)@ + json_string_array(ss@),
{
    let ghost parts = ss@.map_values(|s: String| json_string_literal(s@));
    let ghost start = out@;
    push_char(out, '[');
    assert(out@ =~= start + seq!['['] + join_with(parts.take(0), seq![',']));
    let mut i: usize = 0;
    while i < ss.len()
        invariant
            parts == ss@.map_values(|s: String| json_string_literal(s@)),
            i <= ss.len(),
            out@ == start + seq!['['] + join_with(parts.take(i as int), seq![',']),
        decreases ss.len() - i,
    {
        proof {
            lemma_join_with_push(parts, i as int, seq![',']);
        }
        if i > 0 {
            push_char(out, ',');
        }
        push_json_string(out, ss[i].as_str());
        assert(out@ =~= start + seq!['['] + join_with(parts.take(i + 1), seq![',']));
        i = i + 1;
    }
    assert(parts.take(i as int) =~= parts);
    push_char(out, ']');
    assert(out@ =~= old(out)@ + json_string_array(ss@));
}

fn push_validation_item(out: &mut String, item: &ValidationErrorItem)
    ensures
        final(out)@ == old(out)@ + validation_item_json(*item),
{
    out.append("{\"loc\":");
    push_json_string_array(out, &item.loc);
    out.append(",\"msg\":");
    push_json_string(out, item.msg.as_str());
    out.append(",\"type\":");
    push_json_string(out, item.ty.as_str());
    push_char(out, '}');
    assert(out@ =~= old(out)@ + validation_item_json(*item));
}

fn push_validation_json(out: &mut String, items: &Vec<ValidationErrorItem>)
    ensures
        final(out)@ == old(out)@ + validation_json(items@),
{
    let ghost parts = items@.map_values(|it: ValidationErrorItem| validation_item_json(it));
    let ghost start = out@;
    push_char(out, '[');
    assert(out@ =~= start + seq!['['] + join_with(parts.take(0), seq![',']));
    let mut i: usize = 0;
    while i < items.len()
        invariant
            parts == items@.map_values(|it: ValidationErrorItem| validation_item_json(it)),
            i <= items.len(),
            out@ == start + seq!['['] + join_with(parts.take(i as int), seq![',']),
        decreases items.len() - i,
    {
        proof {
            lemma_join_with_push(parts, i as int, seq![',']);
        }
        if i > 0 {
            push_char(out, ',');
        }
        push_validation_item(out, &items[i]);
        assert(out@ =~= start + seq!['['] + join_with(parts.take(i + 1), seq![',']));
        i = i + 1;
    }
    assert(parts.take(i as int) =~= parts);
    push_char(out, ']');
    assert(out@ =~= old(out)@ + validation_json(items@));
}

impl HttpError {
    /// The display form of this error: `status=<status> code="<code>"
    /// detail="<detail>"` for a standard body, and `status=<status>
    /// detail=<items as compact JSON>` for validation items.
    pub fn to_display_string(&self) -> (r: String)
        ensures
            match self.body_of() {
                HttpErrorBody::Standard { code, detail } => r@ == status_prefix(self.status_of())
                    + " code=\""@ + code@ + "\" detail=\""@ + detail@ + seq!['"'],
                HttpErrorBody::Validation { detail } => r@ == status_prefix(self.status_of()) + " detail="@
                    + validation_json(detail@),
            },
    {
        let mut out = String::new();
        out.append("status=");
        self.status.push_display(&mut out);
        match &self.body {
            HttpErrorBody::Standard { code, detail } => {
                out.append(" code=\"");
                out.append(code.as_str());
                out.append("\" detail=\"");
                out.append(detail.as_str());
                push_char(&mut out, '"');
                assert(out@ =~= status_prefix(self.status_of()) + " code=\""@ + code@ + "\" detail=\""@
                    + detail@ + seq!['"']);
            },
            HttpErrorBody::Validation { detail } => {
                out.append(" detail=");
                push_validation_json(&mut out, detail);
                assert(out@ =~= status_prefix(self.status_of()) + " detail="@ + validation_json(detail@));
            },
        }
        out
    }
}

// ================================================================================================
// Traces
// ================================================================================================

/// Results whose error can be turned into an [`Error`] that records the
/// location it passed through.
pub trait Traceable<T>: Sized {
    fn trace(self, location: &'static str) -> Result<T>;
}

impl<T> Traceable<T> for Result<T> {
    /// Appends `location` to the trace of an error; a success passes
    /// through unchanged.
    fn trace(self, location: &'static str) -> (r: Result<T>)
        ensures
            match self {
                Ok(v) => r matches Ok(w) && w == v,
                Err(e) => r matches Err(f) && f.typ == e.typ && f.trace@ == e.trace@.push(location),
            },
    {
        match self {
            Ok(v) => Ok(v),
            Err(e) => {
                let mut e = e;
                e.trace.push(location);
                Err(e)
            },
        }
    }
}

#[verifier::external_type_specification]
#[verifier::external_body]
pub struct ExDbErr(sea_orm::DbErr);

#[verifier::external_type_specification]
#[verifier::external_body]
pub struct ExRedisError(redis::RedisError);

#[verifier::external_type_specification]
#[verifier::external_body]
pub struct ExExtensionRejection(axum::extract::rejection::ExtensionRejection);

#[verifier::external_type_specification]
#[verifier::external_body]
pub struct ExPathRejection(axum::extract::rejection::PathRejection);

impl<T> Traceable<T> for core::result::Result<T, sea_orm::DbErr> {
    /// A database failure becomes a database error raised at `location`,
    /// with the failure's display text as its message.
    fn trace(self, location: &'static str) -> (r: Result<T>)
        ensures
            match self {
                Ok(v) => r matches Ok(w) && w == v,
                Err(e) => r matches Err(f) && f.trace@ == seq![location] && (f.typ matches ErrorType::Database(m)
                    && vstd::string::to_string_from_display_ensures::<sea_orm::DbErr>(&e, m)),
            },
    {
        match self {
            Ok(v) => Ok(v),
            Err(e) => Err(Error::database(e.to_string(), location)),
        }
    }
}

impl<T> Traceable<T> for core::result::Result<T, redis::RedisError> {
    /// A redis failure becomes a queue error raised at `location`, with the
    /// failure's display text as its message.
    fn trace(self, location: &'static str) -> (r: Result<T>)
        ensures
            match self {
                Ok(v) => r matches Ok(w) && w == v,
                Err(e) => r matches Err(f) && f.trace@ == seq![location] && (f.typ matches ErrorType::Queue(m)
                    && vstd::string::to_string_from_display_ensures::<redis::RedisError>(&e, m)),
            },
    {
        match self {
            Ok(v) => Ok(v),
            Err(e) => Err(Error::queue(e.to_string(), location)),
        }
    }
}

impl<T> Traceable<T> for core::result::Result<T, axum::extract::rejection::ExtensionRejection> {
    /// A missing request extension becomes a generic error raised at
    /// `location`, with the rejection's display text as its message.
    fn trace(self, location: &'static str) -> (r: Result<T>)
        ensures
            match self {
                Ok(v) => r matches Ok(w) && w == v,
                Err(e) => r matches Err(f) && f.trace@ == seq![location] && (f.typ matches ErrorType::Generic(m)
                    && vstd::string::to_string_from_display_ensures::<
                    axum::extract::rejection::ExtensionRejection,
                >(&e, m)),
            },
    {
        match self {
            Ok(v) => Ok(v),
            Err(e) => Err(Error::generic(e.to_string(), location)),
        }
    }
}

impl<T> Traceable<T> for core::result::Result<T, axum::extract::rejection::PathRejection> {
    /// A refused path parameter becomes a generic error raised at
    /// `location`, with the rejection's display text as its message.
    fn trace(self, location: &'static str) -> (r: Result<T>)
        ensures
            match self {
                Ok(v) => r matches Ok(w) && w == v,
                Err(e) => r matches Err(f) && f.trace@ == seq![location] && (f.typ matches ErrorType::Generic(m)
                    && vstd::string::to_string_from_display_ensures::<
                    axum::extract::rejection::PathRejection,
                >(&e, m)),
            },
    {
        match self {
            Ok(v) => Ok(v),
            Err(e) => Err(Error::generic(e.to_string(), location)),
        }
    }
}



#[verifier::external_type_specification]
#[verifier::external_body]
pub struct ExTypedHeaderRejection(axum::extract::rejection::TypedHeaderRejection);

impl<T> Traceable<T> for core::result::Result<T, axum::extract::rejection::TypedHeaderRejection> {
    /// A missing or malformed bearer-token header is answered with `401
    /// Unauthorized` and detail `Invalid token`; the location is not
    /// recorded.
    fn trace(self, _location: &'static str) -> (r: Result<T>)
        ensures
            match self {
                Ok(v) => r matches Ok(w) && w == v,
                Err(_) => r matches Err(f) && f.trace@.len() == 0 && (f.typ matches ErrorType::Http(h)
                    && h.status_of().code() == 401 && standard_view(h.body_of()) == Some(
                    ("authentication_failed"@, "Invalid token"@),
                )),
            },
    {
        match self {
            Ok(v) => Ok(v),
            Err(_err) => Err(Error::http(HttpError::unauthorized(None, Some("Invalid token".to_owned())))),
        }
    }
}

/// Why a database transaction failed: the connection failed, or the work
/// inside the transaction raised an error of its own.
#[derive(Debug)]
pub enum TransactionFailure {
    Connection(sea_orm::DbErr),
    Transaction(Error),
}

impl<T> Traceable<T> for core::result::Result<T, TransactionFailure> {
    /// A failed connection becomes a database error raised at `location`,
    /// with the failure's display text as its message; an error raised
    /// inside the transaction comes out unchanged, keeping its own trace.
    fn trace(self, location: &'static str) -> (r: Result<T>)
        ensures
            match self {
                Ok(v) => r matches Ok(w) && w == v,
                Err(TransactionFailure::Transaction(e)) => r matches Err(f) && f == e,
                Err(TransactionFailure::Connection(d)) => r matches Err(f) && f.trace@ == seq![location] && (
                f.typ matches ErrorType::Database(m) && vstd::string::to_string_from_display_ensures::<
                    sea_orm::DbErr,
                >(&d, m)),
            },
    {
        match self {
            Ok(v) => Ok(v),
            Err(TransactionFailure::Connection(db_err)) => Err(Error::database(db_err.to_string(), location)),
            Err(TransactionFailure::Transaction(crate_err)) => Err(crate_err),
        }
    }
}

// ================================================================================================
// Display of an error
// ================================================================================================

/// The `Debug` form of a list of strings: `["a", "b"]`.
pub open spec fn string_list_debug(ss: Seq<String>) -> Seq<char> {
    seq!['['] + join_with(ss.map_values(|s: String| debug_str(s@)), ", "@) + seq![']']
}

/// The `Debug` form of a validation item.
pub open spec fn item_debug(i: ValidationErrorItem) -> Seq<char> {
    "ValidationErrorItem { loc: "@ + string_list_debug(i.loc@) + ", msg: "@ + debug_str(i.msg@) + ", ty: "@
        + debug_str(i.ty@) + " }"@
}

/// The `Debug` form of an HTTP error body.
pub open spec fn body_debug(b: HttpErrorBody) -> Seq<char> {
    match b {
        HttpErrorBody::Standard { code, detail } => "Standard { code: "@ + debug_str(code@) + ", detail: "@
            + debug_str(detail@) + " }"@,
        HttpErrorBody::Validation { detail } => "Validation { detail: "@ + seq!['['] + join_with(
            detail@.map_values(|i: ValidationErrorItem| item_debug(i)),
            ", "@,
        ) + seq![']'] + " }"@,
    }
}

/// The `Debug` form of an HTTP error; its status shows as a bare number.
pub open spec fn http_error_debug(h: HttpError) -> Seq<char> {
    "HttpError { status: "@ + decimal(h.status_of().code() as nat) + ", body: "@ + body_debug(h.body_of())
        + " }"@
}

/// How an error is displayed: the `Debug` form of its kind, e.g.
/// `Database("connection refused")`.
pub open spec fn error_type_debug(t: ErrorType) -> Seq<char> {
    match t {
        ErrorType::Generic(s) => "Generic("@ + debug_str(s@) + seq![')'],
        ErrorType::Database(s) => "Database("@ + debug_str(s@) + seq![')'],
        ErrorType::Queue(s) => "Queue("@ + debug_str(s@) + seq![')'],
        ErrorType::Validation(s) => "Validation("@ + debug_str(s@) + seq![')'],
        ErrorType::Http(h) => "Http("@ + http_error_debug(h) + seq![')'],
        ErrorType::Cache(s) => "Cache("@ + debug_str(s@) + seq![')'],
        ErrorType::Timeout(s) => "Timeout("@ + debug_str(s@) + seq![')'],
    }
}

/// An error is displayed as the name of its kind, an opening bracket, its
/// payload (a message in Debug quotes, or the HTTP error), and a closing
/// bracket; so the kinds never display alike, already at the first
/// character.
pub proof fn lemma_display_names_kind(t: ErrorType, u: ErrorType)
    ensures
        t matches ErrorType::Generic(m) ==> error_type_debug(t) == "Generic("@ + debug_str(m@) + ")"@,
        t matches ErrorType::Database(m) ==> error_type_debug(t) == "Database("@ + debug_str(m@) + ")"@,
        t matches ErrorType::Queue(m) ==> error_type_debug(t) == "Queue("@ + debug_str(m@) + ")"@,
        t matches ErrorType::Validation(m) ==> error_type_debug(t) == "Validation("@ + debug_str(m@)
            + ")"@,
        t matches ErrorType::Http(h) ==> error_type_debug(t) == "Http("@ + http_error_debug(h) + ")"@,
        t matches ErrorType::Cache(m) ==> error_type_debug(t) == "Cache("@ + debug_str(m@) + ")"@,
        t matches ErrorType::Timeout(m) ==> error_type_debug(t) == "Timeout("@ + debug_str(m@) + ")"@,
        error_type_debug(t)[0] == error_type_debug(u)[0] ==> {
            &&& (t is Generic <==> u is Generic)
            &&& (t is Database <==> u is Database)
            &&& (t is Queue <==> u is Queue)
            &&& (t is Validation <==> u is Validation)
            &&& (t is Http <==> u is Http)
            &&& (t is Cache <==> u is Cache)
            &&& (t is Timeout <==> u is Timeout)
        },
{
    reveal_strlit("Generic(");
    reveal_strlit("Database(");
    reveal_strlit("Queue(");
    reveal_strlit("Validation(");
    reveal_strlit("Http(");
    reveal_strlit("Cache(");
    reveal_strlit("Timeout(");
    reveal_strlit(")");
    assert(")"@ =~= seq![')']);
}

/// The JSON array of strings holds one string literal per string, in
/// order: `[]` for none, the literal in brackets for one, and one more
/// string adds a comma and its literal before the closing bracket.
pub proof fn lemma_json_string_array_push(ss: Seq<String>, s: String)
    ensures
        json_string_array(Seq::empty()) == seq!['[', ']'],
        json_string_array(seq![s]) == seq!['['] + json_string_literal(s@) + seq![']'],
        ss.len() > 0 ==> json_string_array(ss.push(s)) == json_string_array(ss).drop_last() + seq![',']
            + json_string_literal(s@) + seq![']'],
{
    let f = |x: String| json_string_literal(x@);
    assert(Seq::<String>::empty().map_values(f) =~= Seq::<Seq<char>>::empty());
    assert(seq![s].map_values(f) =~= seq![json_string_literal(s@)]);
    assert(seq!['['] + Seq::<char>::empty() + seq![']'] =~= seq!['[', ']']);
    let parts = ss.map_values(f);
    assert(ss.push(s).map_values(f) =~= parts.push(json_string_literal(s@)));
    assert(parts.push(json_string_literal(s@)).drop_last() =~= parts);
    let j = join_with(parts, seq![',']);
    assert((seq!['['] + j + seq![']']).drop_last() =~= seq!['['] + j);
    assert(seq!['['] + (j + seq![','] + json_string_literal(s@)) + seq![']'] =~= seq!['['] + j + seq![',']
        + json_string_literal(s@) + seq![']']);
}

/// The JSON object of a validation item writes its whole location, as a
/// JSON array of strings, under `loc`, then its message under `msg` and
/// its type under `type`, each as a JSON string literal.
pub proof fn lemma_validation_item_json_fields(item: ValidationErrorItem)
    ensures
        validation_item_json(item) == seq!['{'] + "\"loc\":"@ + json_string_array(item.loc@) + seq![',']
            + "\"msg\":"@ + json_string_literal(item.msg@) + seq![','] + "\"type\":"@
            + json_string_literal(item.ty@) + seq!['}'],
{
    reveal_strlit("{\"loc\":");
    reveal_strlit("\"loc\":");
    reveal_strlit(",\"msg\":");
    reveal_strlit("\"msg\":");
    reveal_strlit(",\"type\":");
    reveal_strlit("\"type\":");
    assert(validation_item_json(item) =~= seq!['{'] + "\"loc\":"@ + json_string_array(item.loc@)
        + seq![','] + "\"msg\":"@ + json_string_literal(item.msg@) + seq![','] + "\"type\":"@
        + json_string_literal(item.ty@) + seq!['}']);
}

/// The JSON array of validation items holds one object per item, in
/// order: `[]` for none, the object in brackets for one, and one more item
/// adds a comma and its object before the closing bracket.
pub proof fn lemma_validation_json_push(items: Seq<ValidationErrorItem>, item: ValidationErrorItem)
    ensures
        validation_json(Seq::empty()) == seq!['[', ']'],
        validation_json(seq![item]) == seq!['['] + validation_item_json(item) + seq![']'],
        items.len() > 0 ==> validation_json(items.push(item)) == validation_json(items).drop_last() + seq![
            ',',
        ] + validation_item_json(item) + seq![']'],
{
    let f = |x: ValidationErrorItem| validation_item_json(x);
    assert(Seq::<ValidationErrorItem>::empty().map_values(f) =~= Seq::<Seq<char>>::empty());
    assert(seq![item].map_values(f) =~= seq![validation_item_json(item)]);
    assert(seq!['['] + Seq::<char>::empty() + seq![']'] =~= seq!['[', ']']);
    let parts = items.map_values(f);
    assert(items.push(item).map_values(f) =~= parts.push(validation_item_json(item)));
    assert(parts.push(validation_item_json(item)).drop_last() =~= parts);
    let j = join_with(parts, seq![',']);
    assert((seq!['['] + j + seq![']']).drop_last() =~= seq!['['] + j);
    assert(seq!['['] + (j + seq![','] + validation_item_json(item)) + seq![']'] =~= seq!['['] + j
        + seq![','] + validation_item_json(item) + seq![']']);
}

fn push_string_list_debug(out: &mut String, ss: &Vec<String>)
    ensures
        final(out)@ == old(out)@ + string_list_debug(ss@),
{
    let ghost parts = ss@.map_values(|s: String| debug_str(s@));
    let ghost start = out@;
    push_char(out, '[');
    assert(out@ =~= start + seq!['['] + join_with(parts.take(0), ", "@));
    let mut i: usize = 0;
    while i < ss.len()
        invariant
            parts == ss@.map_values(|s: String| debug_str(s@)),
            i <= ss.len(),
            out@ == start + seq!['['] + join_with(parts.take(i as int), ", "@),
        decreases ss.len() - i,
    {
        proof {
            lemma_join_with_push(parts, i as int, ", "@);
        }
        if i > 0 {
            out.append(", ");
        }
        let d = debug_quoted(ss[i].as_str());
        out.append(d.as_str());
        assert(out@ =~= start + seq!['['] + join_with(parts.take(i + 1), ", "@));
        i = i + 1;
    }
    assert(parts.take(i as int) =~= parts);
    push_char(out, ']');
    assert(out@ =~= old(out)@ + string_list_debug(ss@));
}

fn push_item_debug(out: &mut String, i: &ValidationErrorItem)
    ensures
        final(out)@ == old(out)@ + item_debug(*i),
{
    out.append("ValidationErrorItem { loc: ");
    push_string_list_debug(out, &i.loc);
    out.append(", msg: ");
    let m = debug_quoted(i.msg.as_str());
    out.append(m.as_str());
    out.append(", ty: ");
    let t = debug_quoted(i.ty.as_str());
    out.append(t.as_str());
    out.append(" }");
    assert(out@ =~= old(out)@ + item_debug(*i));
}

fn push_body_debug(out: &mut String, b: &HttpErrorBody)
    ensures
        final(out)@ == old(out)@ + body_debug(*b),
{
    match b {
        HttpErrorBody::Standard { code, detail } => {
            out.append("Standard { code: ");
            let c = debug_quoted(code.as_str());
            out.append(c.as_str());
            out.append(", detail: ");
            let d = debug_quoted(detail.as_str());
            out.append(d.as_str());
            out.append(" }");
            assert(out@ =~= old(out)@ + body_debug(*b));
        },
        HttpErrorBody::Validation { detail } => {
            let ghost parts = detail@.map_values(|it: ValidationErrorItem| item_debug(it));
            out.append("Validation { detail: ");
            push_char(out, '[');
            let ghost start = out@;
            assert(out@ =~= start + join_with(parts.take(0), ", "@));
            let mut k: usize = 0;
            while k < detail.len()
                invariant
                    parts == detail@.map_values(|it: ValidationErrorItem| item_debug(it)),
                    k <= detail.len(),
                    out@ == start + join_with(parts.take(k as int), ", "@),
                decreases detail.len() - k,
            {
                proof {
                    lemma_join_with_push(parts, k as int, ", "@);
                }
                if k > 0 {
                    out.append(", ");
                }
                push_item_debug(out, &detail[k]);
                assert(out@ =~= start + join_with(parts.take(k + 1), ", "@));
                k = k + 1;
            }
            assert(parts.take(k as int) =~= parts);
            push_char(out, ']');
            out.append(" }");
            assert(out@ =~= old(out)@ + body_debug(*b));
        },
    }
}

impl Error {
    /// How this error is displayed: the `Debug` form of its kind.
    pub fn to_display_string(&self) -> (r: String)
        ensures
            r@ == error_type_debug(self.typ),
    {
        let mut out = String::new();
        match &self.typ {
            ErrorType::Generic(s) => {
                out.append("Generic(");
                let d = debug_quoted(s.as_str());
                out.append(d.as_str());
            },
            ErrorType::Database(s) => {
                out.append("Database(");
                let d = debug_quoted(s.as_str());
                out.append(d.as_str());
            },
            ErrorType::Queue(s) => {
                out.append("Queue(");
                let d = debug_quoted(s.as_str());
                out.append(d.as_str());
            },
            ErrorType::Validation(s) => {
                out.append("Validation(");
                let d = debug_quoted(s.as_str());
                out.append(d.as_str());
            },
            ErrorType::Http(h) => {
                out.append("Http(");
                out.append("HttpError { status: ");
                let code: u16 = h.status.as_u16();
                push_decimal(&mut out, code as u64);
                out.append(", body: ");
                push_body_debug(&mut out, &h.body);
                out.append(" }");
            },
            ErrorType::Cache(s) => {
                out.append("Cache(");
                let d = debug_quoted(s.as_str());
                out.append(d.as_str());
            },
            ErrorType::Timeout(s) => {
                out.append("Timeout(");
                let d = debug_quoted(s.as_str());
                out.append(d.as_str());
            },
        }
        push_char(&mut out, ')');
        assert(out@ =~= error_type_debug(self.typ));
        out
    }
}

} // verus!
