//! The server monitor: process, database-pool and host figures as
//! reported, and the parts of them that are computed from raw readings.

use vstd::prelude::*;
use vstd::string::*;
use crate::text::{
    trim, trim_str, split_char, split_char_str, has_prefix, strip_prefix, parse_unsigned,
    parse_unsigned_spec, i64_decimal, int_decimal,
};

verus! {

/// Runtime figures of the process (named as the clients expect them).
pub struct GoRuntimeInfo {
    pub version: String,
    /// Live threads of the process.
    pub num_goroutine: u32,
    pub mem_alloc_bytes: String,
    pub mem_sys_bytes: String,
    pub gc_cycles: u32,
    pub uptime_seconds: String,
    pub started_at: String,
}

pub struct DatabaseInfo {
    pub driver: String,
    pub ping_ok: bool,
    pub ping_error: Option<String>,
    pub max_open_connections: u32,
    pub open_connections: u32,
    pub in_use_connections: u32,
    pub idle_connections: u32,
}

pub struct HostInfo {
    pub os: String,
    pub arch: String,
    pub num_cpu: u32,
    pub hostname: String,
}

pub struct ServerMonitorInfo {
    pub go: GoRuntimeInfo,
    pub database: DatabaseInfo,
    pub host: HostInfo,
    pub collected_at: String,
}

/// The figures of a connection pool: the outcome of a ping (the error's
/// text when it failed), its size and its idle connections.
pub struct PoolReading {
    pub ping_error: Option<String>,
    pub size: u32,
    pub idle: usize,
}

/// The database figures: from the pool when there is one (driver postgres,
/// at least 1 as the maximum, idle connections also reported as in use);
/// else an unconfigured database.
pub fn database_info(pool: Option<PoolReading>) -> (r: DatabaseInfo)
    ensures
        match pool {
            Some(p) => {
                &&& r.driver@ == "postgres"@
                &&& r.ping_ok == (p.ping_error is None)
                &&& match p.ping_error {
                    Some(e) => r.ping_error matches Some(m) && m@ == "database ping failed: "@ + e@,
                    None => r.ping_error is None,
                }
                &&& r.max_open_connections == if p.size < 1 { 1 } else { p.size }
                &&& r.open_connections == p.size
                &&& r.in_use_connections == p.idle as u32
                &&& r.idle_connections == p.idle as u32
            },
            None => {
                &&& r.driver@.len() == 0
                &&& !r.ping_ok
                &&& r.ping_error matches Some(m) && m@ == "database client is not configured"@
                &&& r.max_open_connections == 0 && r.open_connections == 0
                &&& r.in_use_connections == 0 && r.idle_connections == 0
            },
        },
{
    match pool {
        Some(p) => {
            let (ok, err) = match p.ping_error {
                Some(e) => (false, Some(crate::text::cat("database ping failed: ", e.as_str()))),
                None => (true, None),
            };
            DatabaseInfo {
                driver: String::from_str("postgres"),
                ping_ok: ok,
                ping_error: err,
                max_open_connections: if p.size < 1 {
                    1
                } else {
                    p.size
                },
                open_connections: p.size,
                in_use_connections: p.idle as u32,
                idle_connections: p.idle as u32,
            }
        },
        None => DatabaseInfo {
            driver: String::new(),
            ping_ok: false,
            ping_error: Some(String::from_str("database client is not configured")),
            max_open_connections: 0,
            open_connections: 0,
            in_use_connections: 0,
            idle_connections: 0,
        },
    }
}

/// The thread count in a `/proc/self/status` text: the value after the
/// first `Threads:` line prefix (0 when it does not parse or is missing).
pub open spec fn threads_in(lines: Seq<Seq<char>>) -> u32
    decreases lines.len(),
{
    if lines.len() == 0 {
        0
    } else if has_prefix(lines[0], "Threads:"@) {
        match parse_unsigned_spec(trim(lines[0].subrange(8, lines[0].len() as int)), u32::MAX as int) {
            Some(n) => n as u32,
            None => 0,
        }
    } else {
        threads_in(lines.drop_first())
    }
}

/// The thread count of a status text whose lines are `lines`.
pub fn threads_from_status(lines: &Vec<String>) -> (r: u32)
    ensures
        r == threads_in(crate::text::views(lines@)),
{
    let ghost ls = crate::text::views(lines@);
    let mut i: usize = 0;
    proof {
        assert(ls.subrange(0, ls.len() as int) =~= ls);
        reveal_strlit("Threads:");
    }
    while i < lines.len()
        invariant
            i <= lines.len(),
            ls == crate::text::views(lines@),
            threads_in(ls.subrange(i as int, ls.len() as int)) == threads_in(ls),
        decreases lines.len() - i,
    {
        let ghost rest = ls.subrange(i as int, ls.len() as int);
        proof {
            assert(rest[0] == lines@[i as int]@);
            assert(rest.drop_first() =~= ls.subrange(i + 1, ls.len() as int));
        }
        if let Some(v) = strip_prefix(lines[i].as_str(), "Threads:") {
            let t = trim_str(v.as_str());
            proof {
                reveal_strlit("Threads:");
                assert(has_prefix(rest[0], "Threads:"@));
                assert(t@ == trim(rest[0].subrange(8, rest[0].len() as int)));
            }
            let r: u32 = match parse_unsigned(t.as_str(), 4294967295u64) {
                Some(n) => n as u32,
                None => 0,
            };
            return r;
        }
        i += 1;
    }
    0
}

/// Seconds since start, never negative.
pub fn uptime_seconds(now: i64, started: i64) -> (r: i64)
    requires
        i64::MIN <= now - started <= i64::MAX,
    ensures
        r == if now - started < 0 { 0 } else { now - started },
{
    let d = now - started;
    if d < 0 {
        0
    } else {
        d
    }
}

/// The runtime figures as reported: the version (the toolchain's, or a
/// default name), threads, memory, no GC cycles, uptime and start time.
pub fn runtime_info(
    version: Option<&str>,
    threads: u32,
    mem_alloc: u64,
    mem_sys: u64,
    uptime: i64,
    started_at: String,
) -> (r: GoRuntimeInfo)
    ensures
        r.version@ == match version {
            Some(v) => v@,
            None => "rust (backendr)"@,
        },
        r.num_goroutine == threads,
        r.mem_alloc_bytes@ == int_decimal(mem_alloc as int),
        r.mem_sys_bytes@ == int_decimal(mem_sys as int),
        r.gc_cycles == 0,
        r.uptime_seconds@ == int_decimal(uptime as int),
        r.started_at == started_at,
{
    GoRuntimeInfo {
        version: match version {
            Some(v) => String::from_str(v),
            None => String::from_str("rust (backendr)"),
        },
        num_goroutine: threads,
        mem_alloc_bytes: crate::text::u64_decimal(mem_alloc),
        mem_sys_bytes: crate::text::u64_decimal(mem_sys),
        gc_cycles: 0,
        uptime_seconds: i64_decimal(uptime),
        started_at,
    }
}

} // verus!
