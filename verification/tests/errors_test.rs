use axum::extract::FromRequestParts;
use infrastructure::errors::TransactionFailure;
use infrastructure::errors::{
    Error, ErrorResponseBody, ErrorType, HttpError, HttpErrorBody, SchemaRejection, Traceable,
    ValidationErrorItem,
};

fn standard(e: &HttpError) -> (String, String) {
    match e.body() {
        HttpErrorBody::Standard { code, detail } => (code.clone(), detail.clone()),
        HttpErrorBody::Validation { .. } => panic!("expected a standard body"),
    }
}

fn item(loc: &[&str], msg: &str, ty: &str) -> ValidationErrorItem {
    ValidationErrorItem {
        loc: loc.iter().map(|s| s.to_string()).collect(),
        msg: msg.to_string(),
        ty: ty.to_string(),
    }
}

#[test]
fn http_error_defaults() {
    let cases: Vec<(HttpError, u16, &str, &str)> = vec![
        (HttpError::bad_request(None, None), 400, "generic_error", "Generic error"),
        (HttpError::not_found(None, None), 404, "not_found", "Entity not found"),
        (
            HttpError::unauthorized(None, None),
            401,
            "authentication_failed",
            "Incorrect authentication credentials.",
        ),
        (
            HttpError::permission_denied(None, None),
            403,
            "insufficient access",
            "Insufficient access for the given operation.",
        ),
        (HttpError::conflict(None, None), 409, "conflict", "A conflict has occurred"),
        (HttpError::internal_server_error(None, None), 500, "server_error", "Internal Server Error"),
        (
            HttpError::not_implemented(None, None),
            501,
            "not_implemented",
            "This API endpoint is not yet implemented.",
        ),
    ];
    for (e, status, code, detail) in cases {
        assert_eq!(e.status.as_u16(), status);
        assert_eq!(standard(&e), (code.to_string(), detail.to_string()));
    }
}

#[test]
fn http_error_given_code_and_detail() {
    let e = HttpError::conflict(Some("dup".to_string()), Some("already there".to_string()));
    assert_eq!(e.status.as_u16(), 409);
    assert_eq!(standard(&e), ("dup".to_string(), "already there".to_string()));
    let e = HttpError::not_found(None, Some("no user".to_string()));
    assert_eq!(standard(&e), ("not_found".to_string(), "no user".to_string()));
    let e = HttpError::bad_request(Some("bad".to_string()), None);
    assert_eq!(standard(&e), ("bad".to_string(), "Generic error".to_string()));
}

#[test]
fn unprocessable_entity_keeps_items() {
    let e = HttpError::unprocessable_entity(vec![item(&["body", "name"], "too short", "value_error")]);
    assert_eq!(e.status.as_u16(), 422);
    match e.body() {
        HttpErrorBody::Validation { detail } => {
            assert_eq!(detail.len(), 1);
            assert_eq!(detail[0].loc, vec!["body".to_string(), "name".to_string()]);
            assert_eq!(detail[0].msg, "too short");
            assert_eq!(detail[0].ty, "value_error");
        }
        _ => panic!("expected validation body"),
    }
}

#[test]
fn error_constructors_record_location() {
    let e = Error::new("boom".to_string(), "a.rs:1");
    assert_eq!(e.trace, vec!["a.rs:1"]);
    assert!(matches!(e.typ, ErrorType::Generic(ref m) if m == "boom"));
    assert!(matches!(Error::generic("g".to_string(), "l").typ, ErrorType::Generic(ref m) if m == "g"));
    assert!(matches!(Error::database("d".to_string(), "l").typ, ErrorType::Database(ref m) if m == "d"));
    assert!(matches!(Error::queue("q".to_string(), "l").typ, ErrorType::Queue(ref m) if m == "q"));
    assert!(matches!(Error::validation("v".to_string(), "l").typ, ErrorType::Validation(ref m) if m == "v"));
    assert!(matches!(Error::cache("c".to_string(), "l").typ, ErrorType::Cache(ref m) if m == "c"));
    assert_eq!(Error::cache("c".to_string(), "here").trace, vec!["here"]);
}

#[test]
fn http_errors_carry_no_trace() {
    let e = Error::http(HttpError::not_found(None, None));
    assert!(e.trace.is_empty());
    match e.typ {
        ErrorType::Http(h) => assert_eq!(h.status.as_u16(), 404),
        _ => panic!("expected http"),
    }
}

#[test]
fn trace_appends_locations_in_order() {
    let r: infrastructure::errors::Result<u8> = Err(Error::database("x".to_string(), "first"));
    let r = r.trace("second").trace("third");
    let e = r.unwrap_err();
    assert_eq!(e.trace, vec!["first", "second", "third"]);
    assert!(matches!(e.typ, ErrorType::Database(ref m) if m == "x"));
    let ok: infrastructure::errors::Result<u8> = Ok(7);
    assert_eq!(ok.trace("anywhere").unwrap(), 7);
}

#[test]
fn trace_of_database_failure() {
    let r: Result<u8, sea_orm::DbErr> = Err(sea_orm::DbErr::Custom("boom".to_string()));
    let e = r.trace("db.rs").unwrap_err();
    assert_eq!(e.trace, vec!["db.rs"]);
    assert!(matches!(e.typ, ErrorType::Database(ref m) if m == "Custom Error: boom"));
    let ok: Result<u8, sea_orm::DbErr> = Ok(3);
    assert_eq!(ok.trace("db.rs").unwrap(), 3);
}

#[test]
fn trace_of_redis_failure() {
    let err = redis::RedisError::from((redis::ErrorKind::IoError, "gone"));
    let text = err.to_string();
    let r: Result<u8, redis::RedisError> = Err(err);
    let e = r.trace("queue.rs").unwrap_err();
    assert_eq!(e.trace, vec!["queue.rs"]);
    assert!(matches!(e.typ, ErrorType::Queue(ref m) if *m == text));
}

#[test]
fn response_parts_of_http_and_other_errors() {
    let (status, body) = Error::http(HttpError::unauthorized(None, None)).into_response_parts();
    assert_eq!(status.as_u16(), 401);
    match body {
        ErrorResponseBody::Http(HttpErrorBody::Standard { code, .. }) => assert_eq!(code, "authentication_failed"),
        _ => panic!("expected the http body"),
    }
    let (status, body) = Error::queue("down".to_string(), "q").into_response_parts();
    assert_eq!(status.as_u16(), 500);
    assert!(matches!(body, ErrorResponseBody::EmptyObject));
    let (status, body) = HttpError::conflict(None, None).into_response_parts();
    assert_eq!(status.as_u16(), 409);
    assert!(matches!(body, HttpErrorBody::Standard { .. }));
}

#[test]
fn display_of_standard_error() {
    let e = HttpError::bad_request(None, None);
    assert_eq!(e.to_display_string(), "status=400 Bad Request code=\"generic_error\" detail=\"Generic error\"");
    let e = HttpError::not_found(Some("nf".to_string()), Some("say \"hi\"".to_string()));
    assert_eq!(e.to_display_string(), "status=404 Not Found code=\"nf\" detail=\"say \"hi\"\"");
}

#[test]
fn display_of_validation_error_is_json() {
    let items = vec![
        item(&["body", "filterTypes"], "username taken", "value_error"),
        item(&[], "quote \" and \\ and\nnewline", "type_error"),
    ];
    let e = HttpError::unprocessable_entity(items.clone());
    let expected_json = format!(
        "[{{\"loc\":[\"body\",\"filterTypes\"],\"msg\":\"username taken\",\"type\":\"value_error\"}},{{\"loc\":[],\"msg\":{},\"type\":\"type_error\"}}]",
        serde_json::to_string("quote \" and \\ and\nnewline").unwrap()
    );
    assert_eq!(e.to_display_string(), format!("status=422 Unprocessable Entity detail={}", expected_json));
    let empty = HttpError::unprocessable_entity(vec![]);
    assert_eq!(empty.to_display_string(), "status=422 Unprocessable Entity detail=[]");
}

#[test]
fn rejections_become_http_errors() {
    let e = HttpError::from_rejection(SchemaRejection::Json("Expected request with `Content-Type: application/json`".to_string()));
    assert_eq!(e.status.as_u16(), 500);
    assert_eq!(
        standard(&e),
        ("server_error".to_string(), "Expected request with `Content-Type: application/json`".to_string())
    );
    for r in [SchemaRejection::Serde, SchemaRejection::Schema] {
        let e = HttpError::from_rejection(r);
        assert_eq!(e.status.as_u16(), 400);
        assert_eq!(standard(&e), ("generic_error".to_string(), "invalid request".to_string()));
    }
}

#[test]
fn trace_of_refused_bearer_header() {
    let (mut parts, _) = http::Request::new(()).into_parts();
    let rt = tokio::runtime::Builder::new_current_thread().build().unwrap();
    let r = rt.block_on(
        axum::TypedHeader::<axum::headers::Authorization<axum::headers::authorization::Bearer>>::from_request_parts(
            &mut parts,
            &(),
        ),
    );
    let e = r.trace("auth.rs").unwrap_err();
    assert!(e.trace.is_empty());
    match e.typ {
        ErrorType::Http(h) => {
            assert_eq!(h.status.as_u16(), 401);
            assert_eq!(standard(&h), ("authentication_failed".to_string(), "Invalid token".to_string()));
        }
        _ => panic!("expected an http error"),
    }
}

#[test]
fn trace_of_transaction_failures() {
    let r: Result<u8, TransactionFailure> = Err(TransactionFailure::Connection(sea_orm::DbErr::Custom("lost".to_string())));
    let e = r.trace("tx.rs").unwrap_err();
    assert_eq!(e.trace, vec!["tx.rs"]);
    assert!(matches!(e.typ, ErrorType::Database(ref m) if m == "Custom Error: lost"));
    let inner = Error::queue("busy".to_string(), "worker.rs");
    let r: Result<u8, TransactionFailure> = Err(TransactionFailure::Transaction(inner));
    let e = r.trace("tx.rs").unwrap_err();
    assert_eq!(e.trace, vec!["worker.rs"]);
    assert!(matches!(e.typ, ErrorType::Queue(ref m) if m == "busy"));
    let ok: Result<u8, TransactionFailure> = Ok(5);
    assert_eq!(ok.trace("tx.rs").unwrap(), 5);
}

#[test]
fn display_of_validation_error_escapes_control_characters() {
    let items = vec![item(&["a\u{1}b"], "tab\tbell\u{7}\u{8}\u{c}\r", "é/\u{1f}")];
    let e = HttpError::unprocessable_entity(items);
    assert_eq!(
        e.to_display_string(),
        "status=422 Unprocessable Entity detail=[{\"loc\":[\"a\\u0001b\"],\"msg\":\"tab\\tbell\\u0007\\b\\f\\r\",\"type\":\"é/\\u001f\"}]"
    );
}
