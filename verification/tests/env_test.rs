use infrastructure::env::{address_port, max_body_size, Error};

#[test]
fn max_body_size_default_and_parsed() {
    assert_eq!(max_body_size(None).unwrap(), 1024 * 1024);
    assert_eq!(max_body_size(Some("2048".to_string())).unwrap(), 2048);
    assert_eq!(max_body_size(Some("+7".to_string())).unwrap(), 7);
    assert_eq!(max_body_size(Some("0".to_string())).unwrap(), 0);
}

#[test]
fn max_body_size_refuses_non_numbers() {
    for bad in ["", "abc", "-1", " 5", "5 ", "+", "99999999999999999999999999"] {
        assert!(matches!(max_body_size(Some(bad.to_string())), Err(Error::MaxBodySize(_))), "{bad:?}");
    }
}

#[test]
fn address_default() {
    assert_eq!(address_port(None), "0.0.0.0:3000");
    assert_eq!(address_port(Some("127.0.0.1:8080".to_string())), "127.0.0.1:8080");
}

#[test]
fn env_error_messages() {
    let e = max_body_size(Some("abc".to_string())).unwrap_err();
    assert_eq!(
        e.to_display_string(),
        "failed to parse ENVCMP_MAX_BODY_SIZE, expected number of bytes: invalid digit found in string"
    );
    assert_eq!(Error::AddressPort.to_display_string(), "failed to parse ENVCMP_ADDRESS_PORT, expected `host:port`");
    assert_eq!(Error::DatabasePath.to_display_string(), "failed to parse ENVCMP_DATABASE_URL, contains non-Unicode data");
    assert_eq!(
        Error::SigningKey("short".to_string()).to_display_string(),
        "failed to generate key from ENVCMP_SIGNING_KEY: short"
    );
    let p = "".parse::<usize>().unwrap_err();
    assert_eq!(
        Error::CacheSize(p).to_display_string(),
        "failed to parse ENVCMP_CACHE_SIZE, expected number of elements: cannot parse integer from empty string"
    );
}
