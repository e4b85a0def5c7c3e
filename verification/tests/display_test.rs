use infrastructure::errors::{Error as LibError, HttpError as LibHttpError, ValidationErrorItem as LibItem};

// Types shaped like the library's, with std's derived `Debug`, to hold the
// library's display of errors against.
#[derive(Debug)]
#[allow(dead_code)]
enum ErrorTypeShape {
    Generic(String),
    Database(String),
    Http(HttpError),
    Cache(String),
}

#[derive(Debug)]
#[allow(dead_code)]
struct HttpError {
    status: http::StatusCode,
    body: BodyShape,
}

#[derive(Debug)]
#[allow(dead_code)]
enum BodyShape {
    Standard { code: String, detail: String },
    Validation { detail: Vec<ValidationErrorItem> },
}

#[derive(Debug)]
#[allow(dead_code)]
struct ValidationErrorItem {
    loc: Vec<String>,
    msg: String,
    ty: String,
}

#[test]
fn error_display_is_debug_of_its_kind() {
    let e = LibError::generic("it \"broke\"\n".to_string(), "here");
    assert_eq!(e.to_display_string(), format!("{:?}", ErrorTypeShape::Generic("it \"broke\"\n".to_string())));
    let e = LibError::database("refused".to_string(), "db");
    assert_eq!(e.to_display_string(), "Database(\"refused\")");
    let e = LibError::cache("miss".to_string(), "c");
    assert_eq!(e.to_display_string(), format!("{:?}", ErrorTypeShape::Cache("miss".to_string())));
}

#[test]
fn http_error_display_is_debug_of_its_kind() {
    let e = LibError::http(LibHttpError::not_found(None, None));
    let shape = ErrorTypeShape::Http(HttpError {
        status: http::StatusCode::NOT_FOUND,
        body: BodyShape::Standard { code: "not_found".to_string(), detail: "Entity not found".to_string() },
    });
    assert_eq!(e.to_display_string(), format!("{:?}", shape));

    let items = vec![
        LibItem { loc: vec!["body".to_string(), "x".to_string()], msg: "m".to_string(), ty: "t".to_string() },
        LibItem { loc: vec![], msg: "é\t".to_string(), ty: "u".to_string() },
    ];
    let e = LibError::http(LibHttpError::unprocessable_entity(items));
    let shape = ErrorTypeShape::Http(HttpError {
        status: http::StatusCode::UNPROCESSABLE_ENTITY,
        body: BodyShape::Validation {
            detail: vec![
                ValidationErrorItem { loc: vec!["body".to_string(), "x".to_string()], msg: "m".to_string(), ty: "t".to_string() },
                ValidationErrorItem { loc: vec![], msg: "é\t".to_string(), ty: "u".to_string() },
            ],
        },
    });
    assert_eq!(e.to_display_string(), format!("{:?}", shape));
    let e = LibError::http(LibHttpError::unprocessable_entity(vec![]));
    assert_eq!(e.to_display_string(), "Http(HttpError { status: 422, body: Validation { detail: [] } })");
}
