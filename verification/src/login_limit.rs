//! Login rate limiting: failures are counted per client address and per
//! username, and reaching the policy's threshold locks that key for the
//! policy's lock time; a locked address or username is refused before the
//! credentials are checked, and a successful login clears both.

use vstd::prelude::*;
use vstd::string::*;
use crate::text::{cat, str_eq};

verus! {

/// The outcome of a login attempt against the limiter.
pub enum Attempt {
    Denied { reason: String },
    Allowed,
}

/// The effective login policy.
pub struct Policy {
    pub max_failed_attempts: i32,
    pub lock_seconds: i64,
    pub lock_enabled: bool,
    pub notify_failed: bool,
}

impl Default for Policy {
    fn default() -> (r: Policy)
        ensures
            r.max_failed_attempts == 0,
            r.lock_seconds == 0,
            !r.lock_enabled,
            !r.notify_failed,
    {
        Policy { max_failed_attempts: 0, lock_seconds: 0, lock_enabled: false, notify_failed: false }
    }
}

/// The policy in force when no stored policy applies: five failures lock
/// for five minutes.
pub fn fallback_policy() -> (r: Policy)
    ensures
        r.max_failed_attempts == 5,
        r.lock_seconds == 300,
        r.lock_enabled,
        !r.notify_failed,
{
    Policy { max_failed_attempts: 5, lock_seconds: 300, lock_enabled: true, notify_failed: false }
}

/// The failure counter key of a client address.
pub fn ip_fail_key(ip: &str) -> (r: String)
    ensures
        r@ == "gw:loginfail:ip:"@ + ip@,
{
    cat("gw:loginfail:ip:", ip)
}

/// The failure counter key of a username.
pub fn user_fail_key(username: &str) -> (r: String)
    ensures
        r@ == "gw:loginfail:user:"@ + username@,
{
    cat("gw:loginfail:user:", username)
}

/// The lock marker key of a client address.
pub fn ip_lock_key(ip: &str) -> (r: String)
    ensures
        r@ == "gw:lock:ip:"@ + ip@,
{
    cat("gw:lock:ip:", ip)
}

/// The lock marker key of a username.
pub fn user_lock_key(username: &str) -> (r: String)
    ensures
        r@ == "gw:lock:user:"@ + username@,
{
    cat("gw:lock:user:", username)
}

/// How long to lock a key whose failure count has just become `count`:
/// the policy's lock time once the count reaches the threshold, and never
/// when locking is disabled or the lock time is zero.
pub fn lock_after_failure(count: i64, policy: &Policy) -> (r: Option<i64>)
    ensures
        r is Some <==> (policy.lock_enabled && policy.lock_seconds != 0 && count
            >= policy.max_failed_attempts),
        r matches Some(s) ==> s == policy.lock_seconds,
{
    if policy.lock_enabled && policy.lock_seconds != 0 && count >= policy.max_failed_attempts as i64 {
        Some(policy.lock_seconds)
    } else {
        None
    }
}

/// A key-value log: the last entry for a key decides its value, and an entry
/// without a value deletes the key.
pub open spec fn kv_map(log: Seq<(Seq<char>, Option<i64>)>) -> Map<Seq<char>, i64>
    decreases log.len(),
{
    if log.len() == 0 {
        Map::empty()
    } else {
        let (k, v) = log.last();
        match v {
            Some(x) => kv_map(log.drop_last()).insert(k, x),
            None => kv_map(log.drop_last()).remove(k),
        }
    }
}

pub open spec fn entry_view(e: (String, Option<i64>)) -> (Seq<char>, Option<i64>) {
    (e.0@, e.1)
}

/// When no entry at or after `j` has key `k`, the entries before `j` decide
/// `k`.
proof fn lemma_kv_prefix(log: Seq<(Seq<char>, Option<i64>)>, j: int, k: Seq<char>)
    requires
        0 <= j <= log.len(),
        forall|i: int| j <= i < log.len() ==> (#[trigger] log[i]).0 != k,
    ensures
        kv_map(log).contains_key(k) == kv_map(log.subrange(0, j)).contains_key(k),
        kv_map(log).contains_key(k) ==> kv_map(log)[k] == kv_map(log.subrange(0, j))[k],
    decreases log.len() - j,
{
    if j < log.len() {
        let s = log.drop_last();
        assert forall|i: int| j <= i < s.len() implies (#[trigger] s[i]).0 != k by {
            assert(s[i] == log[i]);
        }
        lemma_kv_prefix(s, j, k);
        assert(s.subrange(0, j) =~= log.subrange(0, j));
        assert(log[log.len() - 1].0 != k);
    } else {
        assert(log.subrange(0, j) =~= log);
    }
}

/// A store of integers by key (the counters and lock marks of the limiter).
pub struct KvStore {
    log: Vec<(String, Option<i64>)>,
}

impl View for KvStore {
    type V = Map<Seq<char>, i64>;

    closed spec fn view(&self) -> Map<Seq<char>, i64> {
        kv_map(self.log@.map_values(|e: (String, Option<i64>)| entry_view(e)))
    }
}

impl KvStore {
    pub fn new() -> (r: KvStore)
        ensures
            r@ == Map::<Seq<char>, i64>::empty(),
    {
        let r = KvStore { log: Vec::new() };
        proof {
            assert(r.log@.map_values(|e: (String, Option<i64>)| entry_view(e)) =~= Seq::<(Seq<char>, Option<i64>)>::empty());
        }
        r
    }

    /// The value under `key`.
    pub fn get(&self, key: &str) -> (r: Option<i64>)
        ensures
            r == (if self@.contains_key(key@) { Some(self@[key@]) } else { None::<i64> }),
    {
        let ghost log = self.log@.map_values(|e: (String, Option<i64>)| entry_view(e));
        let mut i: usize = self.log.len();
        while i > 0
            invariant
                i <= self.log.len(),
                log == self.log@.map_values(|e: (String, Option<i64>)| entry_view(e)),
                forall|j: int| i <= j < log.len() ==> (#[trigger] log[j]).0 != key@,
            decreases i,
        {
            let e = &self.log[i - 1];
            assert(log[i - 1] == entry_view(self.log@[i - 1]));
            if str_eq(e.0.as_str(), key) {
                proof {
                    let p = log.subrange(0, i as int);
                    lemma_kv_prefix(log, i as int, key@);
                    assert(p.drop_last() =~= log.subrange(0, i - 1));
                    assert(p.last() == log[i - 1]);
                }
                return e.1;
            }
            i -= 1;
        }
        proof {
            lemma_kv_prefix(log, 0, key@);
            assert(log.subrange(0, 0) =~= Seq::<(Seq<char>, Option<i64>)>::empty());
        }
        None
    }

    /// Sets `key` to `value`.
    pub fn put(&mut self, key: &str, value: i64)
        ensures
            final(self)@ == old(self)@.insert(key@, value),
    {
        let ghost before = self.log@.map_values(|e: (String, Option<i64>)| entry_view(e));
        self.log.push((String::from_str(key), Some(value)));
        proof {
            let after = self.log@.map_values(|e: (String, Option<i64>)| entry_view(e));
            assert(after.drop_last() =~= before);
        }
    }

    /// Removes `key`.
    pub fn delete(&mut self, key: &str)
        ensures
            final(self)@ == old(self)@.remove(key@),
    {
        let ghost before = self.log@.map_values(|e: (String, Option<i64>)| entry_view(e));
        self.log.push((String::from_str(key), None));
        proof {
            let after = self.log@.map_values(|e: (String, Option<i64>)| entry_view(e));
            assert(after.drop_last() =~= before);
        }
    }
}

/// The answer to a locked client address or username.
pub open spec fn locked_message() -> Seq<char> {
    "尝试过多，请稍后再试"@
}

/// Whether a lock mark (the instant it runs out) holds at `now`.
pub open spec fn lock_holds(locks: Map<Seq<char>, i64>, key: Seq<char>, now: i64) -> bool {
    locks.contains_key(key) && now < locks[key]
}

/// A login from `ip` as `username` is locked at `now`.
pub open spec fn is_locked(locks: Map<Seq<char>, i64>, ip: Seq<char>, username: Seq<char>, now: i64) -> bool {
    lock_holds(locks, "gw:lock:ip:"@ + ip, now) || lock_holds(locks, "gw:lock:user:"@ + username, now)
}

/// The count after one more failure under `key`.
pub open spec fn next_count(counts: Map<Seq<char>, i64>, key: Seq<char>) -> i64 {
    let c = if counts.contains_key(key) { counts[key] } else { 0 };
    if c < i64::MAX { (c + 1) as i64 } else { c }
}

/// The lock marks after a failure counted as `count` under `lock_key`: the
/// key is locked until `now` plus the lock time when `lock_after_failure`
/// says so.
pub open spec fn lock_after(locks: Map<Seq<char>, i64>, lock_key: Seq<char>, count: i64, policy: Policy, now: i64) -> Map<Seq<char>, i64> {
    if policy.lock_enabled && policy.lock_seconds != 0 && count >= policy.max_failed_attempts {
        locks.insert(lock_key, saturating(now + policy.lock_seconds))
    } else {
        locks
    }
}

pub open spec fn saturating(x: int) -> i64 {
    if x > i64::MAX {
        i64::MAX
    } else if x < i64::MIN {
        i64::MIN
    } else {
        x as i64
    }
}

/// The counters after a failure from `ip` as `username`: both go up by one.
pub open spec fn failed_counts(counts: Map<Seq<char>, i64>, ip: Seq<char>, username: Seq<char>) -> Map<Seq<char>, i64> {
    let ik = "gw:loginfail:ip:"@ + ip;
    let uk = "gw:loginfail:user:"@ + username;
    let c1 = counts.insert(ik, next_count(counts, ik));
    c1.insert(uk, next_count(c1, uk))
}

/// The lock marks after a failure from `ip` as `username`: each counter that
/// reached the threshold locks its key.
pub open spec fn failed_locks(
    counts: Map<Seq<char>, i64>,
    locks: Map<Seq<char>, i64>,
    ip: Seq<char>,
    username: Seq<char>,
    policy: Policy,
    now: i64,
) -> Map<Seq<char>, i64> {
    let ik = "gw:loginfail:ip:"@ + ip;
    let uk = "gw:loginfail:user:"@ + username;
    let c1 = counts.insert(ik, next_count(counts, ik));
    let l1 = lock_after(locks, "gw:lock:ip:"@ + ip, next_count(counts, ik), policy, now);
    lock_after(l1, "gw:lock:user:"@ + username, next_count(c1, uk), policy, now)
}

/// The failure counters and lock marks of the login limiter, keyed as the
/// Redis store keys them (`gw:loginfail:*`, `gw:lock:*`; a lock mark holds
/// the instant it runs out).
pub struct FailCounter {
    pub counts: KvStore,
    pub locks: KvStore,
}

impl FailCounter {
    pub fn new() -> (r: FailCounter)
        ensures
            r.counts@ == Map::<Seq<char>, i64>::empty(),
            r.locks@ == Map::<Seq<char>, i64>::empty(),
    {
        FailCounter { counts: KvStore::new(), locks: KvStore::new() }
    }

    fn bump(&mut self, fail_key: &str, lock_key: &str, policy: &Policy, now: i64)
        ensures
            final(self).counts@ == old(self).counts@.insert(fail_key@, next_count(old(self).counts@, fail_key@)),
            final(self).locks@ == lock_after(
                old(self).locks@,
                lock_key@,
                next_count(old(self).counts@, fail_key@),
                *policy,
                now,
            ),
    {
        let c = match self.counts.get(fail_key) {
            Some(c) => c,
            None => 0,
        };
        let n = if c < i64::MAX { c + 1 } else { c };
        self.counts.put(fail_key, n);
        if let Some(secs) = lock_after_failure(n, policy) {
            let until: i64 = if secs > 0 && now > i64::MAX - secs {
                i64::MAX
            } else if secs < 0 && now < i64::MIN - secs {
                i64::MIN
            } else {
                now + secs
            };
            self.locks.put(lock_key, until);
        }
    }

    /// Records a failed login: the counters of the client address and of the
    /// username go up by one, and each that reaches the policy's threshold
    /// locks its key for the policy's lock time (never when locking is off or
    /// the lock time is zero).
    pub fn record_failed(&mut self, ip: &str, username: &str, policy: &Policy, now: i64)
        ensures
            final(self).counts@ == failed_counts(old(self).counts@, ip@, username@),
            final(self).locks@ == failed_locks(old(self).counts@, old(self).locks@, ip@, username@, *policy, now),
    {
        let ik = ip_fail_key(ip);
        let il = ip_lock_key(ip);
        self.bump(ik.as_str(), il.as_str(), policy, now);
        let uk = user_fail_key(username);
        let ul = user_lock_key(username);
        self.bump(uk.as_str(), ul.as_str(), policy, now);
    }

    /// Before a login: the refusal when the client address or the username is
    /// locked at `now`.
    pub fn check_locked(&self, ip: &str, username: &str, now: i64) -> (r: Option<String>)
        ensures
            match r {
                Some(m) => is_locked(self.locks@, ip@, username@, now) && m@ == locked_message(),
                None => !is_locked(self.locks@, ip@, username@, now),
            },
    {
        let il = ip_lock_key(ip);
        let ul = user_lock_key(username);
        let a = match self.locks.get(il.as_str()) {
            Some(until) => now < until,
            None => false,
        };
        let b = match self.locks.get(ul.as_str()) {
            Some(until) => now < until,
            None => false,
        };
        if a || b {
            proof {
                reveal_strlit("尝试过多，请稍后再试");
            }
            Some(String::from_str("尝试过多，请稍后再试"))
        } else {
            None
        }
    }

    /// After a successful login: the counters and lock marks of the client
    /// address and the username are cleared.
    pub fn reset(&mut self, ip: &str, username: &str)
        ensures
            final(self).counts@ == old(self).counts@.remove("gw:loginfail:ip:"@ + ip@).remove(
                "gw:loginfail:user:"@ + username@,
            ),
            final(self).locks@ == old(self).locks@.remove("gw:lock:ip:"@ + ip@).remove(
                "gw:lock:user:"@ + username@,
            ),
    {
        self.counts.delete(ip_fail_key(ip).as_str());
        self.counts.delete(user_fail_key(username).as_str());
        self.locks.delete(ip_lock_key(ip).as_str());
        self.locks.delete(user_lock_key(username).as_str());
    }
}

/// After a reset, neither the client address nor the username is locked, at
/// any time.
pub proof fn lemma_reset_unlocks(locks: Map<Seq<char>, i64>, ip: Seq<char>, username: Seq<char>, now: i64)
    ensures
        !is_locked(
            locks.remove("gw:lock:ip:"@ + ip).remove("gw:lock:user:"@ + username),
            ip,
            username,
            now,
        ),
{
}

/// A failure that brings a counter to the threshold, under a policy that
/// locks, locks its key until the lock time has passed (for a lock end that
/// fits in an `i64`).
pub proof fn lemma_threshold_locks(
    locks: Map<Seq<char>, i64>,
    lock_key: Seq<char>,
    count: i64,
    policy: Policy,
    now: i64,
    later: i64,
)
    requires
        policy.lock_enabled,
        policy.lock_seconds > 0,
        count >= policy.max_failed_attempts,
        now <= later,
        later < now + policy.lock_seconds,
        now + policy.lock_seconds <= i64::MAX,
    ensures
        lock_holds(lock_after(locks, lock_key, count, policy, now), lock_key, later),
{
}

} // verus!
