//! Process configuration values.
//!
//! Reading the environment happens outside the library; these types hold
//! the values and own the logic over them: defaulted getters, the log
//! level mapping, and the database URL templating (placeholder
//! substitution over the configured URI).

use vstd::prelude::*;
use vstd::string::*;

verus! {

/// Verbosity of the SQL driver's logging.
#[derive(Clone, Copy, Debug, PartialEq, Eq, Structural)]
pub enum LogLevel {
    Off,
    Error,
    Warn,
    Info,
    Debug,
    Trace,
}

/// Whether `p` occurs in `s` as a contiguous run.
pub open spec fn spec_contains_sub(s: Seq<char>, p: Seq<char>) -> bool {
    exists|i: int| 0 <= i && i + p.len() <= s.len() && #[trigger] s.subrange(i, i + p.len()) == p
}

/// `s` with every (leftmost-first, non-overlapping) occurrence of `pat`
/// replaced by `to`.
pub open spec fn spec_replace(s: Seq<char>, pat: Seq<char>, to: Seq<char>) -> Seq<char>
    decreases s.len(),
{
    if pat.len() == 0 || s.len() < pat.len() {
        s
    } else if s.subrange(0, pat.len() as int) == pat {
        to + spec_replace(s.skip(pat.len() as int), pat, to)
    } else {
        seq![s[0]] + spec_replace(s.skip(1), pat, to)
    }
}

/// The decimal digit character for `d` in `0..10`.
pub open spec fn spec_digit(d: int) -> char {
    if d == 0 {
        '0'
    } else if d == 1 {
        '1'
    } else if d == 2 {
        '2'
    } else if d == 3 {
        '3'
    } else if d == 4 {
        '4'
    } else if d == 5 {
        '5'
    } else if d == 6 {
        '6'
    } else if d == 7 {
        '7'
    } else if d == 8 {
        '8'
    } else {
        '9'
    }
}

/// The decimal rendering of a non-negative number.
pub open spec fn spec_decimal(v: int) -> Seq<char>
    decreases v,
{
    if v < 10 {
        seq![spec_digit(v)]
    } else {
        spec_decimal(v / 10).push(spec_digit(v % 10))
    }
}

fn digit_str(d: u16) -> (r: &'static str)
    requires
        d < 10,
    ensures
        r@ == seq![spec_digit(d as int)],
{
    proof {
        reveal_strlit("0");
        reveal_strlit("1");
        reveal_strlit("2");
        reveal_strlit("3");
        reveal_strlit("4");
        reveal_strlit("5");
        reveal_strlit("6");
        reveal_strlit("7");
        reveal_strlit("8");
        reveal_strlit("9");
    }
    match d {
        0 => "0",
        1 => "1",
        2 => "2",
        3 => "3",
        4 => "4",
        5 => "5",
        6 => "6",
        7 => "7",
        8 => "8",
        _ => "9",
    }
}

fn u16_to_string(v: u16) -> (r: String)
    ensures
        r@ == spec_decimal(v as int),
    decreases v,
{
    if v < 10 {
        digit_str(v).to_owned()
    } else {
        proof {
            assert(v / 10 < v) by (nonlinear_arith)
                requires
                    v >= 10,
            ;
        }
        let mut s = u16_to_string(v / 10);
        s.append(digit_str(v % 10));
        proof {
            assert(s@ =~= spec_decimal((v / 10) as int).push(spec_digit((v % 10) as int)));
        }
        s
    }
}

fn match_at(s: &str, pat: &str, i: usize) -> (r: bool)
    requires
        i + pat@.len() <= s@.len(),
    ensures
        r == (s@.subrange(i as int, i as int + pat@.len() as int) == pat@),
{
    let n = s.unicode_len();
    let m = pat.unicode_len();
    let mut j: usize = 0;
    while j < m
        invariant
            n == s@.len(),
            m == pat@.len(),
            i + m <= n,
            j <= m,
            forall|t: int| 0 <= t < j ==> s@[i + t] == pat@[t],
        decreases m - j,
    {
        if s.get_char(i + j) != pat.get_char(j) {
            proof {
                assert(s@.subrange(i as int, i as int + m as int)[j as int] == s@[i + j]);
            }
            return false;
        }
        j += 1;
    }
    proof {
        assert(s@.subrange(i as int, i as int + m as int) =~= pat@);
    }
    true
}

fn contains_sub(s: &str, pat: &str) -> (r: bool)
    requires
        pat@.len() > 0,
    ensures
        r == spec_contains_sub(s@, pat@),
{
    let n = s.unicode_len();
    let m = pat.unicode_len();
    if m > n {
        return false;
    }
    let mut i: usize = 0;
    while i <= n - m
        invariant
            n == s@.len(),
            m == pat@.len(),
            0 < m <= n,
            i <= n - m + 1,
            forall|k: int| 0 <= k < i ==> #[trigger] s@.subrange(k, k + pat@.len()) != pat@,
        decreases n - m + 1 - i,
    {
        if match_at(s, pat, i) {
            return true;
        }
        i += 1;
    }
    false
}

fn replace_all(s: &str, pat: &str, to: &str) -> (r: String)
    requires
        pat@.len() > 0,
    ensures
        r@ == spec_replace(s@, pat@, to@),
{
    let n = s.unicode_len();
    let m = pat.unicode_len();
    let mut out = String::new();
    let mut i: usize = 0;
    proof {
        assert(s@.skip(0) =~= s@);
        assert(out@ + spec_replace(s@, pat@, to@) =~= spec_replace(s@, pat@, to@));
    }
    while i < n
        invariant
            n == s@.len(),
            m == pat@.len(),
            m > 0,
            i <= n,
            spec_replace(s@, pat@, to@) == out@ + spec_replace(s@.skip(i as int), pat@, to@),
        decreases n - i,
    {
        if m <= n - i && match_at(s, pat, i) {
            out.append(to);
            proof {
                let tail = s@.skip(i as int);
                assert(tail.subrange(0, m as int) =~= s@.subrange(i as int, i as int + m as int));
                assert(tail.skip(m as int) =~= s@.skip(i as int + m as int));
            }
            i += m;
        } else {
            out.append(s.substring_char(i, i + 1));
            proof {
                let tail = s@.skip(i as int);
                assert(tail[0] == s@[i as int]);
                assert(s@.subrange(i as int, i as int + 1) =~= seq![s@[i as int]]);
                if m <= n - i {
                    assert(tail.subrange(0, m as int) =~= s@.subrange(
                        i as int,
                        i as int + m as int,
                    ));
                }
                assert(tail.skip(1) =~= s@.skip(i as int + 1));
            }
            i += 1;
        }
    }
    proof {
        assert(s@.skip(n as int) =~= Seq::<char>::empty());
    }
    out
}

/// Database connection configuration. The URI is a template: `{user}`,
/// `{password}`, `{host}`, `{port}` and `{name}` are substituted by
/// [`DBConfig::url`].
pub struct DBConfig {
    pub uri: String,
    pub name: String,
    pub host: Option<String>,
    pub user: Option<String>,
    pub port: Option<u16>,
    pub password: Option<String>,
    pub max_connections: Option<u32>,
    pub min_connections: Option<u32>,
    pub connect_timeout: Option<u64>,
    pub acquire_timeout: Option<u64>,
    pub idle_timeout: Option<u64>,
    pub max_lifetime: Option<u64>,
    pub sqlx_logging: Option<bool>,
    pub sqlx_logging_level: Option<usize>,
}

impl DBConfig {
    /// The URL the template yields: an sqlite URI needs only the database
    /// name; anything else substitutes credentials, host and port too
    /// (which must then be configured).
    pub fn url(&self) -> (r: String)
        requires
            !spec_contains_sub(self.uri@, "sqlite"@) ==> self.user is Some && self.password
                is Some && self.host is Some && self.port is Some,
        ensures
            spec_contains_sub(self.uri@, "sqlite"@) ==> r@ == spec_replace(
                self.uri@,
                "{name}"@,
                self.name@,
            ),
            !spec_contains_sub(self.uri@, "sqlite"@) ==> r@ == spec_replace(
                spec_replace(
                    spec_replace(
                        spec_replace(
                            spec_replace(self.uri@, "{user}"@, self.user.unwrap()@),
                            "{password}"@,
                            self.password.unwrap()@,
                        ),
                        "{host}"@,
                        self.host.unwrap()@,
                    ),
                    "{port}"@,
                    spec_decimal(self.port.unwrap() as int),
                ),
                "{name}"@,
                self.name@,
            ),
    {
        proof {
            reveal_strlit("sqlite");
            reveal_strlit("{name}");
            reveal_strlit("{user}");
            reveal_strlit("{password}");
            reveal_strlit("{host}");
            reveal_strlit("{port}");
        }
        if contains_sub(self.uri.as_str(), "sqlite") {
            replace_all(self.uri.as_str(), "{name}", self.name.as_str())
        } else {
            let user: &String = if let Some(u) = &self.user {
                u
            } else {
                &self.uri
            };
            let password: &String = if let Some(p) = &self.password {
                p
            } else {
                &self.uri
            };
            let host: &String = if let Some(h) = &self.host {
                h
            } else {
                &self.uri
            };
            let port: u16 = if let Some(p) = self.port {
                p
            } else {
                0
            };
            let step1 = replace_all(self.uri.as_str(), "{user}", user.as_str());
            let step2 = replace_all(step1.as_str(), "{password}", password.as_str());
            let step3 = replace_all(step2.as_str(), "{host}", host.as_str());
            let port_text = u16_to_string(port);
            let step4 = replace_all(step3.as_str(), "{port}", port_text.as_str());
            replace_all(step4.as_str(), "{name}", self.name.as_str())
        }
    }

    pub fn max_connections(&self) -> (r: u32)
        requires
            self.max_connections is Some,
        ensures
            r == self.max_connections.unwrap(),
    {
        if let Some(v) = self.max_connections {
            v
        } else {
            0
        }
    }

    pub fn min_connections(&self) -> (r: u32)
        requires
            self.min_connections is Some,
        ensures
            r == self.min_connections.unwrap(),
    {
        if let Some(v) = self.min_connections {
            v
        } else {
            0
        }
    }

    pub fn connect_timeout(&self) -> (r: u64)
        requires
            self.connect_timeout is Some,
        ensures
            r == self.connect_timeout.unwrap(),
    {
        if let Some(v) = self.connect_timeout {
            v
        } else {
            0
        }
    }

    pub fn acquire_timeout(&self) -> (r: u64)
        requires
            self.acquire_timeout is Some,
        ensures
            r == self.acquire_timeout.unwrap(),
    {
        if let Some(v) = self.acquire_timeout {
            v
        } else {
            0
        }
    }

    pub fn idle_timeout(&self) -> (r: u64)
        requires
            self.idle_timeout is Some,
        ensures
            r == self.idle_timeout.unwrap(),
    {
        if let Some(v) = self.idle_timeout {
            v
        } else {
            0
        }
    }

    pub fn max_lifetime(&self) -> (r: u64)
        requires
            self.max_lifetime is Some,
        ensures
            r == self.max_lifetime.unwrap(),
    {
        if let Some(v) = self.max_lifetime {
            v
        } else {
            0
        }
    }

    pub fn sqlx_logging(&self) -> (r: bool)
        requires
            self.sqlx_logging is Some,
        ensures
            r == self.sqlx_logging.unwrap(),
    {
        if let Some(v) = self.sqlx_logging {
            v
        } else {
            false
        }
    }

    /// The driver log level the numeric configuration selects; anything
    /// unrecognized (or absent) falls back to `Info`.
    pub fn sqlx_logging_level(&self) -> (r: LogLevel)
        ensures
            r == match self.sqlx_logging_level {
                Some(0usize) => LogLevel::Off,
                Some(1usize) => LogLevel::Error,
                Some(2usize) => LogLevel::Warn,
                Some(3usize) => LogLevel::Info,
                Some(4usize) => LogLevel::Debug,
                Some(5usize) => LogLevel::Trace,
                _ => LogLevel::Info,
            },
    {
        match self.sqlx_logging_level {
            Some(0) => LogLevel::Off,
            Some(1) => LogLevel::Error,
            Some(2) => LogLevel::Warn,
            Some(3) => LogLevel::Info,
            Some(4) => LogLevel::Debug,
            Some(5) => LogLevel::Trace,
            Some(_) => LogLevel::Info,
            None => LogLevel::Info,
        }
    }
}

/// Token service configuration: algorithm, keys and lifetimes. When no
/// separate public key is configured, the secret key stands in for it
/// (the shared-secret setup).
pub struct TokenConfig {
    pub algorithm: String,
    pub secret_key: String,
    pub public_key: Option<String>,
    pub access_token_expire_seconds: i64,
    pub refresh_token_expire_seconds: i64,
}

/// Listening address configuration.
pub struct ServerConfig {
    pub host: Option<String>,
    pub port: Option<u16>,
}

impl ServerConfig {
    pub fn host(&self) -> (r: &str)
        requires
            self.host is Some,
        ensures
            r@ == self.host.unwrap()@,
    {
        if let Some(h) = &self.host {
            h.as_str()
        } else {
            ""
        }
    }

    pub fn port(&self) -> (r: u16)
        requires
            self.port is Some,
        ensures
            r == self.port.unwrap(),
    {
        if let Some(p) = self.port {
            p
        } else {
            0
        }
    }
}

/// The process configuration: database, server and token sections.
pub struct Config {
    pub db: DBConfig,
    pub server: ServerConfig,
    pub token: TokenConfig,
}

impl Config {
    /// Assembles the configuration from its sections (the sections are
    /// read from the environment outside the library).
    pub fn new(db: DBConfig, server: ServerConfig, token: TokenConfig) -> (r: Config)
        ensures
            r.db == db,
            r.server == server,
            r.token == token,
    {
        Config { db, server, token }
    }
}

} // verus!
