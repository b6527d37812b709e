//! Application settings, from the values of the `GW_ADMIN_*` environment
//! variables, with development defaults for those that are unset.

use vstd::prelude::*;
use vstd::string::*;
use crate::text::{unicode_lowercase, to_lowercase, str_eq, parse_i64, parse_i64_spec, parse_unsigned, parse_unsigned_spec};

verus! {

/// The running environment.
#[derive(PartialEq, Eq, Structural, Debug, Clone, Copy)]
pub enum Env {
    Dev,
    Test,
    Prod,
}

/// The environment named by a setting (lower-cased): prod/production,
/// test/testing, else dev.
pub open spec fn env_spec(s: Seq<char>) -> Env {
    let l = unicode_lowercase(s);
    if l == "prod"@ || l == "production"@ {
        Env::Prod
    } else if l == "test"@ || l == "testing"@ {
        Env::Test
    } else {
        Env::Dev
    }
}

impl Env {
    pub fn from_str(s: &str) -> (r: Env)
        ensures
            r == env_spec(s@),
    {
        let l = to_lowercase(s);
        let ls = l.as_str();
        if str_eq(ls, "prod") || str_eq(ls, "production") {
            Env::Prod
        } else if str_eq(ls, "test") || str_eq(ls, "testing") {
            Env::Test
        } else {
            Env::Dev
        }
    }
}

/// The settings, built once at start-up.
pub struct AppConfig {
    pub env: Env,
    /// The HTTP listen address, such as `0.0.0.0:7666`.
    pub http_addr: String,
    /// The SQL database DSN.
    pub database_url: Option<String>,
    /// The Redis address, such as `redis://127.0.0.1:6379`.
    pub redis_url: Option<String>,
    /// The JWT signing secret.
    pub jwt_secret: String,
    /// The default tenant.
    pub default_tenant_id: i64,
    /// The largest request body, in bytes.
    pub max_body_bytes: usize,
}

/// The values of the environment variables that the settings read (none for
/// an unset variable).
pub struct EnvVars {
    pub env: Option<String>,
    pub http_addr: Option<String>,
    pub database_url: Option<String>,
    pub redis_url: Option<String>,
    pub jwt_secret: Option<String>,
    pub default_tenant_id: Option<String>,
    pub max_body_bytes: Option<String>,
}

pub open spec fn value_or(v: Option<String>, d: Seq<char>) -> Seq<char> {
    match v {
        Some(x) => x@,
        None => d,
    }
}

/// A variable that is set and not empty.
pub open spec fn nonempty(v: Option<String>) -> Option<Seq<char>> {
    match v {
        Some(x) => if x@.len() > 0 {
            Some(x@)
        } else {
            None
        },
        None => None,
    }
}

pub open spec fn view_opt(o: Option<String>) -> Option<Seq<char>> {
    match o {
        Some(x) => Some(x@),
        None => None,
    }
}

fn env_or(v: &Option<String>, d: &str) -> (r: String)
    ensures
        r@ == value_or(*v, d@),
{
    match v {
        Some(x) => x.clone(),
        None => String::from_str(d),
    }
}

fn env_or_opt(v: &Option<String>) -> (r: Option<String>)
    ensures
        view_opt(r) == nonempty(*v),
{
    match v {
        Some(x) => if x.unicode_len() > 0 {
            Some(x.clone())
        } else {
            None
        },
        None => None,
    }
}

impl AppConfig {
    /// The settings from the variables' values: environment `dev`, address
    /// `0.0.0.0:7666`, secret `dev-secret-change-me`, tenant 1 and a 10 MiB
    /// body limit by default (also for a tenant or limit that does not
    /// parse); the database and Redis addresses only when set and not empty.
    pub fn from_env(vars: &EnvVars) -> (r: AppConfig)
        ensures
            r.env == env_spec(value_or(vars.env, "dev"@)),
            r.http_addr@ == value_or(vars.http_addr, "0.0.0.0:7666"@),
            view_opt(r.database_url) == nonempty(vars.database_url),
            view_opt(r.redis_url) == nonempty(vars.redis_url),
            r.jwt_secret@ == value_or(vars.jwt_secret, "dev-secret-change-me"@),
            r.default_tenant_id == match parse_i64_spec(value_or(vars.default_tenant_id, "1"@)) {
                Some(n) => n,
                None => 1,
            },
            r.max_body_bytes == match parse_unsigned_spec(
                value_or(vars.max_body_bytes, "10485760"@),
                usize::MAX as int,
            ) {
                Some(n) => n,
                None => 10485760,
            },
    {
        let env = Env::from_str(env_or(&vars.env, "dev").as_str());
        let tenant = match parse_i64(env_or(&vars.default_tenant_id, "1").as_str()) {
            Some(n) => n,
            None => 1,
        };
        let limit: usize = match parse_unsigned(
            env_or(&vars.max_body_bytes, "10485760").as_str(),
            usize::MAX as u64,
        ) {
            Some(n) => n as usize,
            None => 10485760,
        };
        AppConfig {
            env,
            http_addr: env_or(&vars.http_addr, "0.0.0.0:7666"),
            database_url: env_or_opt(&vars.database_url),
            redis_url: env_or_opt(&vars.redis_url),
            jwt_secret: env_or(&vars.jwt_secret, "dev-secret-change-me"),
            default_tenant_id: tenant,
            max_body_bytes: limit,
        }
    }
}

} // verus!
