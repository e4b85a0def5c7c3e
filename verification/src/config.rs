//! The service's configuration: its values, where they are read from, and
//! how environment variable names map onto configuration keys.

use vstd::prelude::*;
use crate::text::{
    decimal, digits_value, dots_for_underscores, is_digit, lemma_decimal_reads_back,
    lemma_dots_for_underscores_compose, lemma_replace_absent, lemma_replace_after,
    lemma_replace_dots_for_underscores, lemma_replace_front, mismatch_within, occurs_in,
    push_decimal, replace, replace_all, str_eq,
};
use crate::env::parsed_usize;

verus! {

/// Database pool config
#[derive(Debug, Clone)]
pub struct DbPool {
    /// Database pool min
    pub min: Option<u32>,
    /// Database pool max
    pub max: Option<u32>,
    /// timeout when performing connect
    pub connect_timeout: Option<u64>,
    /// timeout for idle connection (in second)
    pub idle_timeout: Option<u64>,
}

/// Database config
#[derive(Debug, Clone)]
pub struct DatabaseConfig {
    /// Database name
    pub name: String,
    /// Full database url in data source name format
    pub dsn: String,
    /// Database debug logging
    pub debug: bool,
    /// Database pool config
    pub pool: DbPool,
}

/// Logging a.k.a Tracing config
#[derive(Debug, Clone)]
pub struct LogConfig {
    pub level: String,
    pub format: String,
}

/// Host and port that the HTTP server binds to.
#[derive(Debug, Clone)]
pub struct HTTPConfig {
    pub host: String,
    pub port: u16,
}

/// The run mode that selects development behaviour.
pub open spec fn development() -> Seq<char> {
    "development"@
}

/// Whether the run mode is `development`.
pub fn is_dev(run_mode: &String) -> (r: bool)
    ensures
        r == (run_mode@ == development()),
{
    str_eq(run_mode.as_str(), "development")
}

/// The run mode: the value of `RUN_MODE` when it is set, `development`
/// otherwise.
pub fn run_mode_or_default(run_mode_var: Option<String>) -> (r: String)
    ensures
        r@ == match run_mode_var {
            Some(v) => v@,
            None => development(),
        },
{
    match run_mode_var {
        Some(v) => v,
        None => "development".to_owned(),
    }
}

/// The configuration files read for a run mode, in the order in which they
/// are merged (a later one overrides an earlier one).
pub open spec fn config_file_paths(run_mode: Seq<char>) -> Seq<Seq<char>> {
    seq!["config/default.yaml"@, "config/local.yaml"@, "config/"@ + run_mode + ".toml"@]
}

/// The configuration files read for a run mode, in merge order.
pub fn config_files(run_mode: &str) -> (r: Vec<String>)
    ensures
        r@.map_values(|p: String| p@) == config_file_paths(run_mode@),
        r@.len() == 3,
        r@[2]@ == "config/"@ + run_mode@ + ".toml"@,
{
    let mut files: Vec<String> = Vec::new();
    files.push("config/default.yaml".to_owned());
    files.push("config/local.yaml".to_owned());
    let mut per_mode = "config/".to_owned();
    per_mode.append(run_mode);
    per_mode.append(".toml");
    files.push(per_mode);
    assert(files@.map_values(|p: String| p@) =~= config_file_paths(run_mode@));
    files
}

/// Whatever the run mode, three files are read: `config/default.yaml`
/// first, then `config/local.yaml`, and last the run mode's own
/// `config/<run mode>.toml`; two run modes read different files of their
/// own.
pub proof fn lemma_config_files_for_every_mode(run_mode: Seq<char>, other: Seq<char>)
    ensures
        config_file_paths(run_mode).len() == 3,
        config_file_paths(run_mode)[0] == "config/default.yaml"@,
        config_file_paths(run_mode)[1] == "config/local.yaml"@,
        config_file_paths(run_mode)[2] == "config/"@ + run_mode + ".toml"@,
        run_mode != other ==> config_file_paths(run_mode)[2] != config_file_paths(other)[2],
{
    if run_mode != other {
        reveal_strlit("config/");
        reveal_strlit(".toml");
        let a = config_file_paths(run_mode)[2];
        let b = config_file_paths(other)[2];
        if a == b {
            assert(run_mode =~= a.subrange(7, a.len() - 5));
            assert(other =~= b.subrange(7, b.len() - 5));
        }
    }
}

/// The configuration key that an environment variable name stands for:
/// the prefixes `DATABASE_POOL_`, `DATABASE_`, `REDIS_`, `AUTH_CLIENT_` and
/// `AUTH_` become nested keys (`DATABASE.POOL.`, `DATABASE.`, `REDIS.`,
/// `AUTH.CLIENT.`, `AUTH.`), replaced in that order wherever they occur.
pub open spec fn env_key_path(key: Seq<char>) -> Seq<char> {
    let k1 = replace_all(key, "DATABASE_POOL_"@, "DATABASE.POOL."@);
    let k2 = replace_all(k1, "DATABASE_"@, "DATABASE."@);
    let k3 = replace_all(k2, "REDIS_"@, "REDIS."@);
    let k4 = replace_all(k3, "AUTH_CLIENT_"@, "AUTH.CLIENT."@);
    replace_all(k4, "AUTH_"@, "AUTH."@)
}

/// The configuration key that an environment variable name stands for.
pub fn map_env_key(key: &str) -> (r: String)
    ensures
        r@ == env_key_path(key@),
{
    proof {
        reveal_strlit("DATABASE_POOL_");
        reveal_strlit("DATABASE_");
        reveal_strlit("REDIS_");
        reveal_strlit("AUTH_CLIENT_");
        reveal_strlit("AUTH_");
    }
    let k1 = replace(key, "DATABASE_POOL_", "DATABASE.POOL.");
    let k2 = replace(k1.as_str(), "DATABASE_", "DATABASE.");
    let k3 = replace(k2.as_str(), "REDIS_", "REDIS.");
    let k4 = replace(k3.as_str(), "AUTH_CLIENT_", "AUTH.CLIENT.");
    replace(k4.as_str(), "AUTH_", "AUTH.")
}

/// The address the server binds to for a port: all interfaces.
pub open spec fn bind_address_text(port: u16) -> Seq<char> {
    "0.0.0.0:"@ + decimal(port as nat)
}

/// The address the server binds to for a port, e.g. `0.0.0.0:3000`.
pub fn bind_address(port: u16) -> (r: String)
    ensures
        r@ == bind_address_text(port),
{
    let mut s = "0.0.0.0:".to_owned();
    push_decimal(&mut s, port as u64);
    s
}


/// An environment variable name in which none of the five prefixes occurs
/// is its own configuration key.
pub proof fn lemma_env_key_without_prefix(key: Seq<char>)
    requires
        !occurs_in(key, "DATABASE_POOL_"@),
        !occurs_in(key, "DATABASE_"@),
        !occurs_in(key, "REDIS_"@),
        !occurs_in(key, "AUTH_CLIENT_"@),
        !occurs_in(key, "AUTH_"@),
    ensures
        env_key_path(key) == key,
{
    reveal_strlit("DATABASE_POOL_");
    reveal_strlit("DATABASE_");
    reveal_strlit("REDIS_");
    reveal_strlit("AUTH_CLIENT_");
    reveal_strlit("AUTH_");
    lemma_replace_absent(key, "DATABASE_POOL_"@, "DATABASE.POOL."@);
    lemma_replace_absent(key, "DATABASE_"@, "DATABASE."@);
    lemma_replace_absent(key, "REDIS_"@, "REDIS."@);
    lemma_replace_absent(key, "AUTH_CLIENT_"@, "AUTH.CLIENT."@);
    lemma_replace_absent(key, "AUTH_"@, "AUTH."@);
}

/// Mapping a name onto a configuration key turns some underscores into
/// dots and changes no other character: the key is as long as the name,
/// and every character is the name's own or a dot where the name has an
/// underscore.
pub proof fn lemma_env_key_only_turns_underscores_into_dots(key: Seq<char>)
    ensures
        env_key_path(key).len() == key.len(),
        forall|i: int|
            0 <= i < key.len() ==> #[trigger] env_key_path(key)[i] == key[i] || (key[i] == '_'
                && env_key_path(key)[i] == '.'),
{
    reveal_strlit("DATABASE_POOL_");
    reveal_strlit("DATABASE.POOL.");
    reveal_strlit("DATABASE_");
    reveal_strlit("DATABASE.");
    reveal_strlit("REDIS_");
    reveal_strlit("REDIS.");
    reveal_strlit("AUTH_CLIENT_");
    reveal_strlit("AUTH.CLIENT.");
    reveal_strlit("AUTH_");
    reveal_strlit("AUTH.");
    assert(dots_for_underscores("DATABASE_POOL_"@, "DATABASE.POOL."@));
    assert(dots_for_underscores("DATABASE_"@, "DATABASE."@));
    assert(dots_for_underscores("REDIS_"@, "REDIS."@));
    assert(dots_for_underscores("AUTH_CLIENT_"@, "AUTH.CLIENT."@));
    assert(dots_for_underscores("AUTH_"@, "AUTH."@));
    let k1 = replace_all(key, "DATABASE_POOL_"@, "DATABASE.POOL."@);
    let k2 = replace_all(k1, "DATABASE_"@, "DATABASE."@);
    let k3 = replace_all(k2, "REDIS_"@, "REDIS."@);
    let k4 = replace_all(k3, "AUTH_CLIENT_"@, "AUTH.CLIENT."@);
    let k5 = replace_all(k4, "AUTH_"@, "AUTH."@);
    lemma_replace_dots_for_underscores(key, "DATABASE_POOL_"@, "DATABASE.POOL."@);
    lemma_replace_dots_for_underscores(k1, "DATABASE_"@, "DATABASE."@);
    lemma_replace_dots_for_underscores(k2, "REDIS_"@, "REDIS."@);
    lemma_replace_dots_for_underscores(k3, "AUTH_CLIENT_"@, "AUTH.CLIENT."@);
    lemma_replace_dots_for_underscores(k4, "AUTH_"@, "AUTH."@);
    lemma_dots_for_underscores_compose(key, k1, k2);
    lemma_dots_for_underscores_compose(key, k2, k3);
    lemma_dots_for_underscores_compose(key, k3, k4);
    lemma_dots_for_underscores_compose(key, k4, k5);
}

/// A name that starts with `DATABASE_POOL_` is a key under
/// `DATABASE.POOL.`, and what follows the prefix is mapped on its own: no
/// other prefix is found across the nested key's dots.
pub proof fn lemma_env_key_database_pool(rest: Seq<char>)
    ensures
        env_key_path("DATABASE_POOL_"@ + rest) == "DATABASE.POOL."@ + env_key_path(rest),
{
    reveal_strlit("DATABASE_POOL_");
    reveal_strlit("DATABASE.POOL.");
    reveal_strlit("DATABASE_");
    reveal_strlit("REDIS_");
    reveal_strlit("AUTH_CLIENT_");
    reveal_strlit("AUTH_");
    let q = "DATABASE.POOL."@;
    let r1 = replace_all(rest, "DATABASE_POOL_"@, "DATABASE.POOL."@);
    let r2 = replace_all(r1, "DATABASE_"@, "DATABASE."@);
    let r3 = replace_all(r2, "REDIS_"@, "REDIS."@);
    let r4 = replace_all(r3, "AUTH_CLIENT_"@, "AUTH.CLIENT."@);
    lemma_replace_front(rest, "DATABASE_POOL_"@, "DATABASE.POOL."@);
    assert forall|i: int| 0 <= i < q.len() implies #[trigger] mismatch_within(q, "DATABASE_"@, i) by {
        if i == 0 {
            assert(q[i + 8] != "DATABASE_"@[8]);
        } else {
            assert(q[i + 0] != "DATABASE_"@[0]);
        }
    }
    lemma_replace_after(q, r1, "DATABASE_"@, "DATABASE."@);
    assert forall|i: int| 0 <= i < q.len() implies #[trigger] mismatch_within(q, "REDIS_"@, i) by {
        assert(q[i + 0] != "REDIS_"@[0]);
    }
    lemma_replace_after(q, r2, "REDIS_"@, "REDIS."@);
    assert forall|i: int| 0 <= i < q.len() implies #[trigger] mismatch_within(q, "AUTH_CLIENT_"@, i) by {
        if q[i] == 'A' {
            assert(q[i + 1] != "AUTH_CLIENT_"@[1]);
        } else {
            assert(q[i + 0] != "AUTH_CLIENT_"@[0]);
        }
    }
    lemma_replace_after(q, r3, "AUTH_CLIENT_"@, "AUTH.CLIENT."@);
    assert forall|i: int| 0 <= i < q.len() implies #[trigger] mismatch_within(q, "AUTH_"@, i) by {
        if q[i] == 'A' {
            assert(q[i + 1] != "AUTH_"@[1]);
        } else {
            assert(q[i + 0] != "AUTH_"@[0]);
        }
    }
    lemma_replace_after(q, r4, "AUTH_"@, "AUTH."@);
}

/// A name that starts with `REDIS_` is a key under `REDIS.`, and what
/// follows the prefix is mapped on its own.
pub proof fn lemma_env_key_redis(rest: Seq<char>)
    ensures
        env_key_path("REDIS_"@ + rest) == "REDIS."@ + env_key_path(rest),
{
    reveal_strlit("DATABASE_POOL_");
    reveal_strlit("DATABASE_");
    reveal_strlit("REDIS_");
    reveal_strlit("REDIS.");
    reveal_strlit("AUTH_CLIENT_");
    reveal_strlit("AUTH_");
    let p = "REDIS_"@;
    let q = "REDIS."@;
    let r1 = replace_all(rest, "DATABASE_POOL_"@, "DATABASE.POOL."@);
    let r2 = replace_all(r1, "DATABASE_"@, "DATABASE."@);
    let r3 = replace_all(r2, "REDIS_"@, "REDIS."@);
    let r4 = replace_all(r3, "AUTH_CLIENT_"@, "AUTH.CLIENT."@);
    assert forall|i: int| 0 <= i < p.len() implies #[trigger] mismatch_within(p, "DATABASE_POOL_"@, i) by {
        if p[i] == 'D' {
            assert(p[i + 1] != "DATABASE_POOL_"@[1]);
        } else {
            assert(p[i + 0] != "DATABASE_POOL_"@[0]);
        }
    }
    lemma_replace_after(p, rest, "DATABASE_POOL_"@, "DATABASE.POOL."@);
    assert forall|i: int| 0 <= i < p.len() implies #[trigger] mismatch_within(p, "DATABASE_"@, i) by {
        if p[i] == 'D' {
            assert(p[i + 1] != "DATABASE_"@[1]);
        } else {
            assert(p[i + 0] != "DATABASE_"@[0]);
        }
    }
    lemma_replace_after(p, r1, "DATABASE_"@, "DATABASE."@);
    lemma_replace_front(r2, "REDIS_"@, "REDIS."@);
    assert forall|i: int| 0 <= i < q.len() implies #[trigger] mismatch_within(q, "AUTH_CLIENT_"@, i) by {
        assert(q[i + 0] != "AUTH_CLIENT_"@[0]);
    }
    lemma_replace_after(q, r3, "AUTH_CLIENT_"@, "AUTH.CLIENT."@);
    assert forall|i: int| 0 <= i < q.len() implies #[trigger] mismatch_within(q, "AUTH_"@, i) by {
        assert(q[i + 0] != "AUTH_"@[0]);
    }
    lemma_replace_after(q, r4, "AUTH_"@, "AUTH."@);
}

/// A name that starts with `AUTH_CLIENT_` is a key under `AUTH.CLIENT.`,
/// and what follows the prefix is mapped on its own.
pub proof fn lemma_env_key_auth_client(rest: Seq<char>)
    ensures
        env_key_path("AUTH_CLIENT_"@ + rest) == "AUTH.CLIENT."@ + env_key_path(rest),
{
    reveal_strlit("DATABASE_POOL_");
    reveal_strlit("DATABASE_");
    reveal_strlit("REDIS_");
    reveal_strlit("AUTH_CLIENT_");
    reveal_strlit("AUTH.CLIENT.");
    reveal_strlit("AUTH_");
    let p = "AUTH_CLIENT_"@;
    let q = "AUTH.CLIENT."@;
    let r1 = replace_all(rest, "DATABASE_POOL_"@, "DATABASE.POOL."@);
    let r2 = replace_all(r1, "DATABASE_"@, "DATABASE."@);
    let r3 = replace_all(r2, "REDIS_"@, "REDIS."@);
    let r4 = replace_all(r3, "AUTH_CLIENT_"@, "AUTH.CLIENT."@);
    assert forall|i: int| 0 <= i < p.len() implies #[trigger] mismatch_within(p, "DATABASE_POOL_"@, i) by {
        assert(p[i + 0] != "DATABASE_POOL_"@[0]);
    }
    lemma_replace_after(p, rest, "DATABASE_POOL_"@, "DATABASE.POOL."@);
    assert forall|i: int| 0 <= i < p.len() implies #[trigger] mismatch_within(p, "DATABASE_"@, i) by {
        assert(p[i + 0] != "DATABASE_"@[0]);
    }
    lemma_replace_after(p, r1, "DATABASE_"@, "DATABASE."@);
    assert forall|i: int| 0 <= i < p.len() implies #[trigger] mismatch_within(p, "REDIS_"@, i) by {
        assert(p[i + 0] != "REDIS_"@[0]);
    }
    lemma_replace_after(p, r2, "REDIS_"@, "REDIS."@);
    lemma_replace_front(r3, "AUTH_CLIENT_"@, "AUTH.CLIENT."@);
    assert forall|i: int| 0 <= i < q.len() implies #[trigger] mismatch_within(q, "AUTH_"@, i) by {
        if i == 0 {
            assert(q[i + 4] != "AUTH_"@[4]);
        } else {
            assert(q[i + 0] != "AUTH_"@[0]);
        }
    }
    lemma_replace_after(q, r4, "AUTH_"@, "AUTH."@);
}

/// In particular, `DATABASE_POOL_` followed by a text in which no prefix
/// occurs (such as `DATABASE_POOL_IDLE_TIMEOUT`) is `DATABASE.POOL.`
/// followed by that text unchanged.
pub proof fn lemma_env_key_database_pool_field(rest: Seq<char>)
    requires
        !occurs_in(rest, "DATABASE_POOL_"@),
        !occurs_in(rest, "DATABASE_"@),
        !occurs_in(rest, "REDIS_"@),
        !occurs_in(rest, "AUTH_CLIENT_"@),
        !occurs_in(rest, "AUTH_"@),
    ensures
        env_key_path("DATABASE_POOL_"@ + rest) == "DATABASE.POOL."@ + rest,
{
    lemma_env_key_database_pool(rest);
    lemma_env_key_without_prefix(rest);
}

/// The bind address is `0.0.0.0:` followed by the port, written so that it
/// reads back as the port.
pub proof fn lemma_bind_address_port(port: u16)
    ensures
        bind_address_text(port).take(8) == "0.0.0.0:"@,
        parsed_usize(bind_address_text(port).skip(8)) == Some(port as usize),
{
    reveal_strlit("0.0.0.0:");
    lemma_decimal_reads_back(port as nat);
    let d = decimal(port as nat);
    assert(bind_address_text(port).take(8) =~= "0.0.0.0:"@);
    assert(bind_address_text(port).skip(8) =~= d);
    assert(is_digit(d[0]));
    assert(digits_value(d) <= usize::MAX);
}

} // verus!
