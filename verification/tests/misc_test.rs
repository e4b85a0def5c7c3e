use argon2::password_hash::{PasswordHash, PasswordVerifier};
use infrastructure::errors::{ErrorType, HttpErrorBody};
use infrastructure::extractors::Json;
use infrastructure::handler::{handle_404_json, handler_404, health_handler, root_handler};
use infrastructure::hash::{hash_password, hash_password_with_salt};
use infrastructure::health::{healthcheck, ping, HealthStatus};
use infrastructure::logger::{
    log_to_slog_level, max_log_level, record_location, slog_to_log_level, LogLevel, SlogLevel,
};
use infrastructure::tracing::{configured_max_level, get_log_level, Level};
use infrastructure::users::{created_user, insert_failure_error, user_constraint_error, NewUser};

#[test]
fn plain_handlers() {
    let (s, b) = health_handler();
    assert_eq!((s.as_u16(), b.error, b.message.as_str()), (200, false, "healthy"));
    let (s, b) = handle_404_json();
    assert_eq!((s.as_u16(), b.error, b.message.as_str()), (404, true, "not found"));
    let (s, t) = handler_404();
    assert_eq!((s.as_u16(), t), (404, "nothing to see here"));
    let (s, b) = root_handler();
    assert_eq!((s.as_u16(), b.error, b.message.as_str()), (200, false, "sup!"));
}

#[test]
fn health_statuses() {
    assert!(HealthStatus::new_ok().is_ok());
    assert!(!HealthStatus::new_error().is_ok());
    let ok: Result<u8, String> = Ok(1);
    let err: Result<u8, String> = Err("down".to_string());
    assert_eq!(HealthStatus::from(ok), HealthStatus::new_ok());
    assert_eq!(HealthStatus::from(err), HealthStatus::new_error());
    let (s, r) = healthcheck::<u8, String>(Ok(1));
    assert_eq!(s.as_u16(), 200);
    assert!(r.database().is_ok());
    let (s, r) = healthcheck::<u8, String>(Err("down".to_string()));
    assert_eq!(s.as_u16(), 500);
    assert!(!r.database().is_ok());
    assert_eq!(ping().as_u16(), 204);
}

#[test]
fn log_levels_from_names() {
    assert_eq!(get_log_level(&"TRACE".to_string()), Level::Trace);
    assert_eq!(get_log_level(&"DEBUG".to_string()), Level::Debug);
    assert_eq!(get_log_level(&"WARN".to_string()), Level::Warn);
    assert_eq!(get_log_level(&"ERROR".to_string()), Level::Error);
    assert_eq!(get_log_level(&"INFO".to_string()), Level::Info);
    assert_eq!(get_log_level(&"debug".to_string()), Level::Info);
    assert_eq!(get_log_level(&"".to_string()), Level::Info);
    assert_eq!(configured_max_level(&"".to_string()), None);
    assert_eq!(configured_max_level(&"WARN".to_string()), Some(Level::Warn));
    assert_eq!(configured_max_level(&"verbose".to_string()), Some(Level::Info));
    assert_eq!(infrastructure::tracing_provider::get_log_level(&"ERROR".to_string()), Level::Error);
}

#[test]
fn log_and_slog_levels() {
    let all = [LogLevel::Error, LogLevel::Warn, LogLevel::Info, LogLevel::Debug, LogLevel::Trace];
    for l in all {
        assert_eq!(slog_to_log_level(log_to_slog_level(l)), l);
    }
    assert_eq!(log_to_slog_level(LogLevel::Warn), SlogLevel::Warning);
    assert_eq!(slog_to_log_level(SlogLevel::Critical), LogLevel::Error);
    assert_eq!(log_to_slog_level(slog_to_log_level(SlogLevel::Critical)), SlogLevel::Error);
    for s in [SlogLevel::Error, SlogLevel::Warning, SlogLevel::Info, SlogLevel::Debug, SlogLevel::Trace] {
        assert_eq!(log_to_slog_level(slog_to_log_level(s)), s);
    }
    assert_eq!(max_log_level(None), None);
    assert_eq!(max_log_level(Some(SlogLevel::Debug)), Some(LogLevel::Debug));
}

#[test]
fn record_locations() {
    let l = record_location(Some("app::db"), Some("src/db.rs"), Some(12));
    assert_eq!((l.module, l.file, l.line, l.column, l.function), ("app::db", "src/db.rs", 12, 0, ""));
    let l = record_location(None, None, None);
    assert_eq!((l.module, l.file, l.line, l.column, l.function), ("", "", 0, 0, ""));
}

#[test]
fn password_hashes_verify_and_differ() {
    let h1 = hash_password("secret".to_string()).unwrap();
    let h2 = hash_password("secret".to_string()).unwrap();
    assert!(h1.starts_with("$argon2id$v=19$m=19456,t=2,p=1$"));
    assert_eq!(h1.len(), "$argon2id$v=19$m=19456,t=2,p=1$".len() + 22 + 1 + 43);
    assert_ne!(h1, h2);
    let parsed = PasswordHash::new(&h1).unwrap();
    assert!(argon2::Argon2::default().verify_password(b"secret", &parsed).is_ok());
    assert!(argon2::Argon2::default().verify_password(b"other", &parsed).is_err());
}

#[test]
fn user_creation() {
    let u = created_user(
        NewUser { username: "ann".to_string(), email: "ann@x.org".to_string(), password: "pw".to_string() },
        "tok".to_string(),
    );
    assert_eq!(
        (u.user.email.as_str(), u.user.username.as_str(), u.user.token.as_str(), u.user.bio.as_str()),
        ("ann@x.org", "ann", "tok", "")
    );
    assert!(u.user.image.is_none());
    let e = user_constraint_error("user_username_key").unwrap();
    match e.typ {
        ErrorType::Http(h) => {
            assert_eq!(h.status.as_u16(), 422);
            match h.body() {
                HttpErrorBody::Validation { detail } => {
                    assert_eq!(detail.len(), 1);
                    assert_eq!(detail[0].loc, vec!["body".to_string(), "filterTypes".to_string()]);
                    assert_eq!(detail[0].msg, "username taken");
                    assert_eq!(detail[0].ty, "value_error");
                }
                _ => panic!("expected validation body"),
            }
        }
        _ => panic!("expected http error"),
    }
    let e = user_constraint_error("user_email_key").unwrap();
    match e.typ {
        ErrorType::Http(h) => match h.body() {
            HttpErrorBody::Validation { detail } => {
                assert_eq!(detail[0].loc, vec!["email".to_string()]);
                assert_eq!(detail[0].msg, "email taken");
            }
            _ => panic!("expected validation body"),
        },
        _ => panic!("expected http error"),
    }
    assert!(user_constraint_error("user_pkey").is_none());
}

#[test]
fn json_wrapper() {
    let j = Json(5u8);
    assert_eq!(j.0, 5);
}

#[test]
fn password_hash_with_given_salt() {
    let salt = "c2FsdHNhbHRzYWx0c2FsdA";
    let h = hash_password_with_salt("secret", salt).unwrap();
    let s = argon2::password_hash::SaltString::from_b64(salt).unwrap();
    let expected = PasswordHash::generate(argon2::Argon2::default(), "secret", s.as_salt()).unwrap().to_string();
    assert_eq!(h, expected);
    let prefix = format!("$argon2id$v=19$m=19456,t=2,p=1${}$", salt);
    assert!(h.starts_with(&prefix));
    assert_eq!(h.len(), prefix.len() + 43);
    let parsed = PasswordHash::new(&h).unwrap();
    assert!(argon2::Argon2::default().verify_password(b"secret", &parsed).is_ok());
}

#[test]
fn password_hash_refuses_empty_salt() {
    let e = hash_password_with_salt("secret", "").unwrap_err();
    assert_eq!(e.trace, vec!["hash_password"]);
    match e.typ {
        ErrorType::Generic(m) => assert!(m.starts_with("failed to generate password hash: ")),
        _ => panic!("expected a generic error"),
    }
}

#[test]
fn insert_failures_of_users() {
    let e = insert_failure_error(Some("user_email_key".to_string()), sea_orm::DbErr::Custom("dup".to_string()));
    match e.typ {
        ErrorType::Http(h) => {
            assert_eq!(h.status.as_u16(), 422);
            match h.body() {
                HttpErrorBody::Validation { detail } => {
                    assert_eq!(detail[0].loc, vec!["email".to_string()]);
                    assert_eq!(detail[0].msg, "email taken");
                }
                _ => panic!("expected a validation body"),
            }
        }
        _ => panic!("expected an http error"),
    }
    let e = insert_failure_error(Some("user_username_key".to_string()), sea_orm::DbErr::Custom("dup".to_string()));
    match e.typ {
        ErrorType::Http(h) => {
            assert_eq!(h.status.as_u16(), 422);
            match h.body() {
                HttpErrorBody::Validation { detail } => {
                    assert_eq!(detail.len(), 1);
                    assert_eq!(detail[0].loc, vec!["body".to_string(), "filterTypes".to_string()]);
                    assert_eq!((detail[0].msg.as_str(), detail[0].ty.as_str()), ("username taken", "value_error"));
                }
                _ => panic!("expected a validation body"),
            }
        }
        _ => panic!("expected an http error"),
    }
    let d = sea_orm::DbErr::Custom("other".to_string());
    let text = d.to_string();
    let e = insert_failure_error(Some("user_pkey".to_string()), d);
    assert_eq!(e.trace, vec!["create_user"]);
    assert!(matches!(e.typ, ErrorType::Database(ref m) if *m == text));
    let d = sea_orm::DbErr::Custom("gone".to_string());
    let text = d.to_string();
    let e = insert_failure_error(None, d);
    assert_eq!(e.trace, vec!["create_user"]);
    assert!(matches!(e.typ, ErrorType::Database(ref m) if *m == text));
}
