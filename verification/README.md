# infrastructure

The logic of a small axum/sea-orm backend service, written in Verus.

- `src/` is the verified library: error values and their HTTP answers and
  display (`errors`, `status`, `json`), the fixed answers of the plain
  routes (`handler`, `health`), log levels (`tracing`, `logger`),
  configuration and environment settings (`config`, `env`, `db`, `rdbms`),
  password hashing (`hash`), user creation (`users`) and the text helpers
  they share (`text`).
- `app/` is the service itself: the axum router, database access, the
  global loggers and the signal handling, which call the library for every
  decision they make.
- `tests/` exercise the library on concrete values.
