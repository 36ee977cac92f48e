//! Settings read from the environment, and their checks.

use vstd::prelude::*;
use crate::text::{
    decimal, decimal_is_canonical, decimal_reads_back, decimal_string, lemma_unsigned_value_nonnegative, parse_u64,
    unsigned_value,
};

verus! {

/// The settings of the server.
pub struct Config {
    pub host: String,
    pub port: u16,
    pub database_url: String,
    pub database_max_connections: u32,
    pub cors_origin: String,
}

/// Why the settings could not be read.
pub enum ConfigError {
    /// A required variable is not set.
    Missing(&'static str),
    /// A variable holds a value that does not parse.
    Invalid { name: &'static str, value: String },
}

/// The view of an optional string.
pub open spec fn opt_view(v: Option<String>) -> Option<Seq<char>> {
    match v {
        Some(s) => Some(s@),
        None => None,
    }
}

/// The value that a numeric variable takes: `fallback` when it is unset,
/// its unsigned decimal value when that is at most `max`; `None` when the
/// text is not such a number.
pub open spec fn numeric_setting(raw: Option<Seq<char>>, fallback: int, max: int) -> Option<int> {
    match raw {
        None => Some(fallback),
        Some(text) => match unsigned_value(text) {
            Some(v) => if v <= max { Some(v) } else { None },
            None => None,
        },
    }
}

/// `true` when `e` reports that `name` holds the invalid text `value`.
pub open spec fn is_invalid_error(e: ConfigError, name: &'static str, value: Option<Seq<char>>) -> bool {
    &&& e matches ConfigError::Invalid { name: n, value: v }
    &&& n == name
    &&& value == Some(v@)
}

/// Reads a numeric variable: `fallback` when it is unset, its value when it
/// is an unsigned decimal no greater than `max`, an error naming the
/// variable and its text otherwise.
fn parse_var(name: &'static str, raw: Option<String>, fallback: u64, max: u64) -> (res: Result<u64, ConfigError>)
    ensures
        numeric_setting(opt_view(raw), fallback as int, max as int) is Some ==> (res matches Ok(v)
            && numeric_setting(opt_view(raw), fallback as int, max as int) == Some(v as int)),
        numeric_setting(opt_view(raw), fallback as int, max as int) is None ==> res is Err
            && is_invalid_error(res->Err_0, name, opt_view(raw)),
{
    match raw {
        None => Ok(fallback),
        Some(value) => {
            proof {
                lemma_unsigned_value_nonnegative(value@);
            }
            match parse_u64(value.as_str()) {
                Some(v) => {
                    if v <= max {
                        Ok(v)
                    } else {
                        Err(ConfigError::Invalid { name, value })
                    }
                },
                None => Err(ConfigError::Invalid { name, value }),
            }
        },
    }
}

impl Config {
    /// Builds the settings from the values of the variables `HOST`, `PORT`,
    /// `DATABASE_URL`, `DATABASE_MAX_CONNECTIONS` and `CORS_ORIGIN`
    /// (`None` for one that is unset). `DATABASE_URL` is required; the
    /// others default to `127.0.0.1`, `8080`, `5` and
    /// `http://localhost:3000`. The variables are checked in that order and
    /// the first problem is reported.
    pub fn from_env(
        host: Option<String>,
        port: Option<String>,
        database_url: Option<String>,
        database_max_connections: Option<String>,
        cors_origin: Option<String>,
    ) -> (res: Result<Config, ConfigError>)
        ensures
            numeric_setting(opt_view(port), 8080, u16::MAX as int) is None ==> res is Err
                && is_invalid_error(res->Err_0, "PORT", opt_view(port)),
            numeric_setting(opt_view(port), 8080, u16::MAX as int) is Some && database_url is None
                ==> (res matches Err(ConfigError::Missing(n)) && n == "DATABASE_URL"),
            numeric_setting(opt_view(port), 8080, u16::MAX as int) is Some && database_url is Some
                && numeric_setting(opt_view(database_max_connections), 5, u32::MAX as int) is None
                ==> res is Err && is_invalid_error(
                res->Err_0,
                "DATABASE_MAX_CONNECTIONS",
                opt_view(database_max_connections),
            ),
            numeric_setting(opt_view(port), 8080, u16::MAX as int) is Some && database_url is Some
                && numeric_setting(opt_view(database_max_connections), 5, u32::MAX as int) is Some
                ==> res is Ok,
            res matches Ok(c) ==> {
                &&& c.host@ == match host {
                    Some(h) => h@,
                    None => "127.0.0.1"@,
                }
                &&& numeric_setting(opt_view(port), 8080, u16::MAX as int) == Some(c.port as int)
                &&& Some(c.database_url@) == opt_view(database_url)
                &&& numeric_setting(opt_view(database_max_connections), 5, u32::MAX as int) == Some(
                    c.database_max_connections as int,
                )
                &&& c.cors_origin@ == match cors_origin {
                    Some(o) => o@,
                    None => "http://localhost:3000"@,
                }
            },
    {
        let host = match host {
            Some(h) => h,
            None => "127.0.0.1".to_owned(),
        };
        let port = match parse_var("PORT", port, 8080, 65535) {
            Ok(p) => p as u16,
            Err(e) => return Err(e),
        };
        let database_url = match database_url {
            Some(u) => u,
            None => return Err(ConfigError::Missing("DATABASE_URL")),
        };
        let database_max_connections = match parse_var(
            "DATABASE_MAX_CONNECTIONS",
            database_max_connections,
            5,
            4294967295,
        ) {
            Ok(n) => n as u32,
            Err(e) => return Err(e),
        };
        let cors_origin = match cors_origin {
            Some(o) => o,
            None => "http://localhost:3000".to_owned(),
        };
        Ok(Config { host, port, database_url, database_max_connections, cors_origin })
    }

    /// The address to listen on: `host:port`.
    pub fn bind_address(&self) -> (addr: String)
        ensures
            addr@ == self.host@ + ":"@ + decimal(self.port as nat),
    {
        let mut addr = self.host.clone();
        addr.append(":");
        let port = decimal_string(self.port as u64);
        addr.append(port.as_str());
        addr
    }
}

/// The port that `bind_address` prints reads back, as `from_env` reads
/// `PORT`, to the port of the settings.
pub proof fn bind_address_port_reads_back(c: Config)
    ensures
        numeric_setting(Some(decimal(c.port as nat)), 8080, u16::MAX as int) == Some(c.port as int),
{
    decimal_reads_back(c.port as nat);
}

/// A variable that is set to a number in range reads as that number, with
/// or without a leading `+`, whatever the default.
pub proof fn set_variable_reads_as_its_number(n: nat, fallback: int, max: int)
    requires
        n <= max,
    ensures
        numeric_setting(Some(decimal(n)), fallback, max) == Some(n as int),
        numeric_setting(Some(seq!['+'] + decimal(n)), fallback, max) == Some(n as int),
{
    decimal_reads_back(n);
    decimal_is_canonical(n);
    assert((seq!['+'] + decimal(n)).drop_first() =~= decimal(n));
}

/// The default of a variable matters only when it is unset: a set
/// variable reads the same under any two defaults, and an unset one reads
/// as its default.
pub proof fn default_applies_only_when_unset(text: Seq<char>, fallback: int, other: int, max: int)
    ensures
        numeric_setting(Some(text), fallback, max) == numeric_setting(Some(text), other, max),
        numeric_setting(None, fallback, max) == Some(fallback),
{
}

/// A set variable holding a number above the bound is refused.
pub proof fn out_of_range_variable_is_refused(n: nat, fallback: int, max: int)
    requires
        n > max,
    ensures
        numeric_setting(Some(decimal(n)), fallback, max) is None,
{
    decimal_reads_back(n);
}

impl ConfigError {
    /// The text of the error, as shown to the operator.
    pub fn message(&self) -> (m: String)
        ensures
            m@ == match self {
                ConfigError::Missing(name) => "環境変数 "@ + name@ + " が設定されていません"@,
                ConfigError::Invalid { name, value } => "環境変数 "@ + name@ + " の値が不正です: "@
                    + value@,
            },
    {
        match self {
            ConfigError::Missing(name) => {
                let mut m = "環境変数 ".to_owned();
                m.append(name);
                m.append(" が設定されていません");
                m
            },
            ConfigError::Invalid { name, value } => {
                let mut m = "環境変数 ".to_owned();
                m.append(name);
                m.append(" の値が不正です: ");
                m.append(value.as_str());
                m
            },
        }
    }
}

} // verus!
