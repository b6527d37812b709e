//! The cache of registered endpoint rules that the tenant access check consults:
//! built from the rows of `sys_apis`, looked up by method and path. A rule
//! registered under a `/users/{id}` template covers the concrete paths that
//! the template matches.

use vstd::prelude::*;
use vstd::string::*;
use crate::text::str_eq;
use crate::middleware::tenant_access::{template_match, template_matches};

verus! {

/// The visibility rule registered for one endpoint.
pub struct ApiRule {
    /// The path, `/admin/v1` prefix included; may be a `/users/{id}` template.
    pub path: String,
    pub method: String,
    /// Whether the endpoint requires authentication.
    pub auth_required: bool,
    /// Whether the endpoint filters by tenant.
    pub tenant_scoped: bool,
}

/// The key under which a rule is cached: its method and path.
pub open spec fn rule_key(r: ApiRule) -> (Seq<char>, Seq<char>) {
    (r.method@, r.path@)
}

/// The rules keyed by method and path; a later rule replaces an earlier one
/// with the same key.
pub open spec fn rules_map(rows: Seq<ApiRule>) -> Map<(Seq<char>, Seq<char>), ApiRule>
    decreases rows.len(),
{
    if rows.len() == 0 {
        Map::empty()
    } else {
        rules_map(rows.drop_last()).insert(rule_key(rows.last()), rows.last())
    }
}

/// The last rule, in registration order, with method `method` whose path
/// template matches `path`.
pub open spec fn last_template_match(rows: Seq<ApiRule>, method: Seq<char>, path: Seq<char>) -> Option<ApiRule>
    decreases rows.len(),
{
    if rows.len() == 0 {
        None
    } else if rows.last().method@ == method && template_match(rows.last().path@, path) {
        Some(rows.last())
    } else {
        last_template_match(rows.drop_last(), method, path)
    }
}

/// The rule that governs a request: the one cached under its exact method
/// and path, else the last registered rule of that method whose template
/// matches the path.
pub open spec fn rule_for(rows: Seq<ApiRule>, method: Seq<char>, path: Seq<char>) -> Option<ApiRule> {
    if rules_map(rows).contains_key((method, path)) {
        Some(rules_map(rows)[(method, path)])
    } else {
        last_template_match(rows, method, path)
    }
}

/// Endpoint rules by `(method, path)`.
pub struct RuleCache {
    inner: Vec<ApiRule>,
}

impl View for RuleCache {
    type V = Map<(Seq<char>, Seq<char>), ApiRule>;

    closed spec fn view(&self) -> Map<(Seq<char>, Seq<char>), ApiRule> {
        rules_map(self.inner@)
    }
}

/// When no rule at or after `j` has key `k`, the rules before `j` decide `k`.
proof fn lemma_rules_map_prefix(rows: Seq<ApiRule>, j: int, k: (Seq<char>, Seq<char>))
    requires
        0 <= j <= rows.len(),
        forall|i: int| j <= i < rows.len() ==> rule_key(#[trigger] rows[i]) != k,
    ensures
        rules_map(rows).contains_key(k) == rules_map(rows.subrange(0, j)).contains_key(k),
        rules_map(rows).contains_key(k) ==> rules_map(rows)[k] == rules_map(rows.subrange(0, j))[k],
    decreases rows.len() - j,
{
    if j < rows.len() {
        let s = rows.drop_last();
        assert forall|i: int| j <= i < s.len() implies rule_key(#[trigger] s[i]) != k by {
            assert(s[i] == rows[i]);
        }
        lemma_rules_map_prefix(s, j, k);
        assert(s.subrange(0, j) =~= rows.subrange(0, j));
        assert(rule_key(rows[rows.len() - 1]) != k);
    } else {
        assert(rows.subrange(0, j) =~= rows);
    }
}

/// A lookup finds the last rule registered under a key, and only a key that
/// some rule has is found.
pub proof fn lemma_rules_map_last(rows: Seq<ApiRule>, k: (Seq<char>, Seq<char>))
    ensures
        rules_map(rows).contains_key(k) <==> exists|i: int| 0 <= i < rows.len() && rule_key(#[trigger] rows[i]) == k,
        rules_map(rows).contains_key(k) ==> exists|i: int|
            0 <= i < rows.len() && rule_key(#[trigger] rows[i]) == k && rules_map(rows)[k] == rows[i]
                && forall|j: int| i < j < rows.len() ==> rule_key(#[trigger] rows[j]) != k,
    decreases rows.len(),
{
    if rows.len() > 0 {
        let s = rows.drop_last();
        lemma_rules_map_last(s, k);
        let n = rows.len() - 1;
        if rule_key(rows[n]) == k {
            assert(rule_key(rows[n]) == k && rules_map(rows)[k] == rows[n]);
        } else {
            if exists|i: int| 0 <= i < rows.len() && rule_key(#[trigger] rows[i]) == k {
                let i = choose|i: int| 0 <= i < rows.len() && rule_key(#[trigger] rows[i]) == k;
                assert(s[i] == rows[i]);
            }
            if rules_map(rows).contains_key(k) {
                let i = choose|i: int|
                    0 <= i < s.len() && rule_key(#[trigger] s[i]) == k && rules_map(s)[k] == s[i]
                        && forall|j: int| i < j < s.len() ==> rule_key(#[trigger] s[j]) != k;
                assert(rows[i] == s[i]);
                assert forall|j: int| i < j < rows.len() implies rule_key(#[trigger] rows[j]) != k by {
                    if j < n {
                        assert(rows[j] == s[j]);
                    }
                }
            }
        }
    }
}

impl RuleCache {
    /// The empty cache.
    pub fn new() -> (r: RuleCache)
        ensures
            r@ == Map::<(Seq<char>, Seq<char>), ApiRule>::empty(),
            r.rows() == Seq::<ApiRule>::empty(),
    {
        RuleCache { inner: Vec::new() }
    }

    /// The cache of `rows`; of rules with one key, the last one is kept.
    pub fn build(rows: Vec<ApiRule>) -> (r: RuleCache)
        ensures
            r@ == rules_map(rows@),
            r.rows() == rows@,
    {
        RuleCache { inner: rows }
    }

    /// The rules in the order they were registered.
    pub closed spec fn rows(&self) -> Seq<ApiRule> {
        self.inner@
    }

    /// The cache maps each key to the last registered rule with that key.
    pub proof fn lemma_view_of_rows(&self)
        ensures
            self@ == rules_map(self.rows()),
    {
    }

    /// The rule cached under exactly `method` and `path`.
    fn get_exact(&self, method: &str, path: &str) -> (r: Option<&ApiRule>)
        ensures
            match r {
                Some(x) => self@.contains_key((method@, path@)) && *x == self@[(method@, path@)],
                None => !self@.contains_key((method@, path@)),
            },
    {
        let ghost k = (method@, path@);
        let ghost rows = self.inner@;
        let mut i: usize = self.inner.len();
        while i > 0
            invariant
                i <= self.inner.len(),
                rows == self.inner@,
                k == (method@, path@),
                forall|j: int| i <= j < rows.len() ==> rule_key(#[trigger] rows[j]) != k,
            decreases i,
        {
            let rule = &self.inner[i - 1];
            if str_eq(rule.method.as_str(), method) && str_eq(rule.path.as_str(), path) {
                proof {
                    let p = rows.subrange(0, i as int);
                    lemma_rules_map_prefix(rows, i as int, k);
                    assert(p.drop_last() =~= rows.subrange(0, i - 1));
                    assert(p.last() == rows[i - 1]);
                }
                return Some(rule);
            }
            i -= 1;
        }
        proof {
            lemma_rules_map_prefix(rows, 0, k);
            assert(rows.subrange(0, 0) =~= Seq::<ApiRule>::empty());
        }
        None
    }

    /// The rule for a request of `method` on `path`: the one cached under
    /// exactly that method and path, else the last registered rule of that
    /// method whose path template matches the path (so a `/users/{id}` rule
    /// covers `/users/42`); none when no rule covers the request.
    pub fn get(&self, method: &str, path: &str) -> (r: Option<&ApiRule>)
        ensures
            match r {
                Some(x) => rule_for(self.rows(), method@, path@) == Some(*x),
                None => rule_for(self.rows(), method@, path@) is None,
            },
            self@.contains_key((method@, path@)) ==> r == Some(&self@[(method@, path@)]),
    {
        let exact = self.get_exact(method, path);
        if exact.is_some() {
            return exact;
        }
        let ghost rows = self.inner@;
        let mut i: usize = self.inner.len();
        proof {
            assert(rows.subrange(0, i as int) =~= rows);
        }
        while i > 0
            invariant
                i <= self.inner.len(),
                rows == self.inner@,
                !rules_map(rows).contains_key((method@, path@)),
                last_template_match(rows, method@, path@) == last_template_match(
                    rows.subrange(0, i as int),
                    method@,
                    path@,
                ),
            decreases i,
        {
            let rule = &self.inner[i - 1];
            let ghost p = rows.subrange(0, i as int);
            assert(p.last() == rows[i - 1]);
            assert(p.drop_last() =~= rows.subrange(0, i - 1));
            if str_eq(rule.method.as_str(), method) && template_matches(rule.path.as_str(), path) {
                return Some(rule);
            }
            i -= 1;
        }
        None
    }
}

impl Default for RuleCache {
    fn default() -> (r: RuleCache)
        ensures
            r@ == Map::<(Seq<char>, Seq<char>), ApiRule>::empty(),
            r.rows() == Seq::<ApiRule>::empty(),
    {
        RuleCache::new()
    }
}

} // verus!
