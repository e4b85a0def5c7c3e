use infrastructure::status::StatusCode;

#[test]
fn codes_out_of_range_are_refused() {
    assert!(StatusCode::from_u16(99).is_none());
    assert!(StatusCode::from_u16(1000).is_none());
    assert_eq!(StatusCode::from_u16(100).unwrap().as_u16(), 100);
    assert_eq!(StatusCode::from_u16(999).unwrap().as_u16(), 999);
}

#[test]
fn named_codes() {
    assert_eq!(StatusCode::ok().as_u16(), 200);
    assert_eq!(StatusCode::no_content().as_u16(), 204);
    assert_eq!(StatusCode::bad_request().as_u16(), 400);
    assert_eq!(StatusCode::unauthorized().as_u16(), 401);
    assert_eq!(StatusCode::forbidden().as_u16(), 403);
    assert_eq!(StatusCode::not_found().as_u16(), 404);
    assert_eq!(StatusCode::conflict().as_u16(), 409);
    assert_eq!(StatusCode::unprocessable_entity().as_u16(), 422);
    assert_eq!(StatusCode::internal_server_error().as_u16(), 500);
    assert_eq!(StatusCode::not_implemented().as_u16(), 501);
}

#[test]
fn reason_phrases_and_display() {
    assert_eq!(StatusCode::not_found().canonical_reason(), Some("Not Found"));
    assert_eq!(StatusCode::from_u16(599).unwrap().canonical_reason(), None);
    assert_eq!(StatusCode::not_found().to_display_string(), "404 Not Found");
    assert_eq!(StatusCode::from_u16(599).unwrap().to_display_string(), "599 <unknown status code>");
    for code in 100u16..1000 {
        let ours = StatusCode::from_u16(code).unwrap().to_display_string();
        assert_eq!(ours, http::StatusCode::from_u16(code).unwrap().to_string());
    }
}
