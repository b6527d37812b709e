//! The tenant access check: for tenant users, the tenant must be active, an
//! expired tenant under the read-only policy may only read, the request must
//! match a registered API of a known business module, and the tenant's plan
//! must include that module. Every failure is a 403: access fails closed.

use vstd::prelude::*;
use vstd::string::*;
use crate::error::AppError;
use crate::text::{
    ascii_lower, eq_pred, has_prefix, has_suffix, owned, segments, segments_str, str_eq,
    to_ascii_lower, trim, trim_char, trim_char_str, trim_str, starts_with, ends_with, views,
};

verus! {

/// The business modules that the access check knows (the DB values of
/// `sys_apis.business_module`).
pub open spec fn known_module(m: Seq<char>) -> bool {
    ||| m == "DASHBOARD"@
    ||| m == "OPM"@
    ||| m == "SYSTEM"@
    ||| m == "DICT"@
    ||| m == "TENANT"@
    ||| m == "PERMISSION"@
    ||| m == "LOG"@
    ||| m == "INTERNAL_MESSAGE"@
    ||| m == "FILE"@
    ||| m == "TASK"@
}

pub fn is_known_module(m: &str) -> (r: bool)
    ensures
        r == known_module(m@),
{
    str_eq(m, "DASHBOARD") || str_eq(m, "OPM") || str_eq(m, "SYSTEM") || str_eq(m, "DICT")
        || str_eq(m, "TENANT") || str_eq(m, "PERMISSION") || str_eq(m, "LOG") || str_eq(
        m,
        "INTERNAL_MESSAGE",
    ) || str_eq(m, "FILE") || str_eq(m, "TASK")
}

/// The registered API that a request matches.
pub enum ApiMatch {
    /// A registered API with a business module.
    Found(String),
    /// A registered API whose business module is empty.
    FoundNoModule,
    /// No registered API matches.
    NotFound,
}

/// A template segment matches a path segment: `{param}` matches any segment,
/// any other segment only itself.
pub open spec fn segment_matches(tp: Seq<char>, cp: Seq<char>) -> bool {
    (has_prefix(tp, "{"@) && has_suffix(tp, "}"@)) || tp == cp
}

/// The non-empty segments of a path with its surrounding slashes removed.
pub open spec fn route_segments(s: Seq<char>) -> Seq<Seq<char>> {
    segments(trim_char(s, '/'), '/')
}

/// A concrete path matches a template when both have the same number of
/// segments and each template segment matches the path segment at its place.
pub open spec fn template_match(template: Seq<char>, concrete: Seq<char>) -> bool {
    let t = route_segments(template);
    let c = route_segments(concrete);
    t.len() == c.len() && forall|i: int| 0 <= i < t.len() ==> segment_matches(#[trigger] t[i], c[i])
}

pub fn template_matches(template: &str, concrete: &str) -> (r: bool)
    ensures
        r == template_match(template@, concrete@),
{
    let tt = trim_char_str(template, '/');
    let ct = trim_char_str(concrete, '/');
    let t = segments_str(tt.as_str(), '/');
    let c = segments_str(ct.as_str(), '/');
    let ghost ts = route_segments(template@);
    let ghost cs = route_segments(concrete@);
    if t.len() != c.len() {
        assert(views(t@).len() == t@.len());
        return false;
    }
    let mut i: usize = 0;
    while i < t.len()
        invariant
            i <= t.len(),
            t.len() == c.len(),
            views(t@) == ts,
            views(c@) == cs,
            ts == route_segments(template@),
            cs == route_segments(concrete@),
            forall|j: int| 0 <= j < i ==> segment_matches(#[trigger] ts[j], cs[j]),
        decreases t.len() - i,
    {
        let tp = t[i].as_str();
        let cp = c[i].as_str();
        assert(ts[i as int] == tp@ && cs[i as int] == cp@);
        if !((starts_with(tp, "{") && ends_with(tp, "}")) || str_eq(tp, cp)) {
            assert(!segment_matches(ts[i as int], cs[i as int]));
            assert(!template_match(template@, concrete@)) by {
                let k = i as int;
                assert(0 <= k < ts.len() && !segment_matches(ts[k], cs[k]));

            }
            return false;
        }
        i += 1;
    }
    true
}

/// A template matches the path it reads.
pub proof fn lemma_template_matches_itself(t: Seq<char>)
    ensures
        template_match(t, t),
{
}

/// A path none of whose segments is a `{param}` placeholder.
pub open spec fn literal_route(p: Seq<char>) -> bool {
    forall|i: int| 0 <= i < route_segments(p).len() ==> !(has_prefix(#[trigger] route_segments(p)[i], "{"@)
        && has_suffix(route_segments(p)[i], "}"@))
}

/// A template without placeholders matches exactly the paths with the same
/// segments; so between two such paths matching is symmetric.
pub proof fn lemma_literal_template_match(t: Seq<char>, c: Seq<char>)
    requires
        literal_route(t),
    ensures
        template_match(t, c) == (route_segments(t) == route_segments(c)),
        literal_route(c) ==> template_match(t, c) == template_match(c, t),
{
    let ts = route_segments(t);
    let cs = route_segments(c);
    if template_match(t, c) {
        assert forall|i: int| 0 <= i < ts.len() implies ts[i] == cs[i] by {
            assert(segment_matches(ts[i], cs[i]));
        }
        assert(ts =~= cs);
    }
    if ts == cs {
        assert forall|i: int| 0 <= i < ts.len() implies segment_matches(#[trigger] ts[i], cs[i]) by {}
    }
    if literal_route(c) {
        if template_match(c, t) {
            assert forall|i: int| 0 <= i < cs.len() implies cs[i] == ts[i] by {
                assert(segment_matches(cs[i], ts[i]));
            }
            assert(ts =~= cs);
        }
        if ts == cs {
            assert forall|i: int| 0 <= i < cs.len() implies segment_matches(#[trigger] cs[i], ts[i]) by {}
        }
    }
}

/// One registered API (`sys_apis`): its path template, method and business
/// module, each as stored (possibly NULL).
pub struct ApiRow {
    pub path: Option<String>,
    pub method: Option<String>,
    pub business_module: Option<String>,
}

/// A row applies to a request when its method equals the request method up
/// to ASCII case and its path template matches the request path.
pub open spec fn row_matches(row: ApiRow, path: Seq<char>, method: Seq<char>) -> bool {
    &&& row.path matches Some(p)
    &&& row.method matches Some(m)
    &&& ascii_lower(m@) == ascii_lower(method)
    &&& template_match(p@, path)
}

/// `r` is what the matching row `row` yields: its module when not blank.
pub open spec fn row_result(row: ApiRow, r: ApiMatch) -> bool {
    match row.business_module {
        Some(m) if trim(m@).len() > 0 => r matches ApiMatch::Found(x) && x@ == m@,
        _ => r is FoundNoModule,
    }
}

/// The business module of the first registered API that matches the request.
pub fn find_api_module(rows: &Vec<ApiRow>, path: &str, method: &str) -> (r: ApiMatch)
    ensures
        r is NotFound <==> forall|i: int| 0 <= i < rows.len() ==> !row_matches(#[trigger] rows@[i], path@, method@),
        r !is NotFound ==> exists|i: int|
            0 <= i < rows.len() && row_matches(#[trigger] rows@[i], path@, method@) && (forall|j: int|
                0 <= j < i ==> !row_matches(#[trigger] rows@[j], path@, method@)) && row_result(rows@[i], r),
{
    let method_lower = to_ascii_lower(method);
    let mut i: usize = 0;
    while i < rows.len()
        invariant
            i <= rows.len(),
            method_lower@ == ascii_lower(method@),
            forall|j: int| 0 <= j < i ==> !row_matches(#[trigger] rows@[j], path@, method@),
        decreases rows.len() - i,
    {
        let row = &rows[i];
        match (&row.path, &row.method) {
            (Some(p), Some(m)) => {
                let ml = to_ascii_lower(m.as_str());
                if str_eq(ml.as_str(), method_lower.as_str()) && template_matches(p.as_str(), path) {
                    assert(row_matches(rows@[i as int], path@, method@));
                    match &row.business_module {
                        Some(b) => {
                            let bt = trim_str(b.as_str());
                            if bt.unicode_len() > 0 {
                                let r = ApiMatch::Found(b.clone());
                                assert(row_result(rows@[i as int], r));
                                return r;
                            }
                        },
                        None => {},
                    }
                    let r = ApiMatch::FoundNoModule;
                    assert(row_result(rows@[i as int], r));
                    return r;
                }
            },
            _ => {},
        }
        i += 1;
    }
    ApiMatch::NotFound
}

/// `e` is a 403 with message `m`.
pub open spec fn is_forbidden(e: AppError, m: Seq<char>) -> bool {
    e matches AppError::Forbidden(x) && x@ == m
}

/// The tenant's state as the access check reads it.
pub struct TenantAccessRow {
    pub status: Option<String>,
    pub plan_id: Option<i64>,
    /// The expiry policy of the tenant's plan.
    pub expiry_policy: Option<String>,
    /// Whether the tenant has an expiry time in the past.
    pub expired: bool,
}

pub open spec fn read_method(method: Seq<char>) -> bool {
    method == "GET"@ || method == "HEAD"@ || method == "OPTIONS"@
}

pub open spec fn opt_is(o: Option<String>, v: Seq<char>) -> bool {
    o matches Some(x) && x@ == v
}

/// The first step of the access check: the tenant exists, is `ON`, and is not an
/// expired read-only tenant attempting a write. On success, the tenant's plan.
pub fn tenant_state_check(row: Option<&TenantAccessRow>, method: &str) -> (r: Result<Option<i64>, AppError>)
    ensures
        match row {
            None => r matches Err(e) && is_forbidden(e, "access denied"@),
            Some(t) => if !opt_is(t.status, "ON"@) {
                r matches Err(e) && is_forbidden(e, "tenant is not active"@)
            } else if t.expired && opt_is(t.expiry_policy, "READONLY"@) && !read_method(method@) {
                r matches Err(e) && is_forbidden(e, "tenant is read-only due to expiry"@)
            } else {
                r == Ok::<Option<i64>, AppError>(t.plan_id)
            },
        },
{
    match row {
        None => Err(AppError::Forbidden(owned("access denied"))),
        Some(t) => {
            let active = match &t.status {
                Some(s) => str_eq(s.as_str(), "ON"),
                None => false,
            };
            if !active {
                return Err(AppError::Forbidden(owned("tenant is not active")));
            }
            let readonly = match &t.expiry_policy {
                Some(p) => str_eq(p.as_str(), "READONLY"),
                None => false,
            };
            if t.expired && readonly && !(str_eq(method, "GET") || str_eq(method, "HEAD") || str_eq(
                method,
                "OPTIONS",
            )) {
                return Err(AppError::Forbidden(owned("tenant is read-only due to expiry")));
            }
            Ok(t.plan_id)
        },
    }
}

/// The second check: the request matches a registered API of a known module;
/// on success, that module.
pub fn module_check(m: ApiMatch) -> (r: Result<String, AppError>)
    ensures
        match m {
            ApiMatch::Found(x) => if known_module(x@) {
                r matches Ok(y) && y@ == x@
            } else {
                r matches Err(e) && is_forbidden(e, "module not allowed"@)
            },
            ApiMatch::FoundNoModule => r matches Err(e) && is_forbidden(e, "module not allowed"@),
            ApiMatch::NotFound => r matches Err(e) && is_forbidden(e, "access denied"@),
        },
{
    match m {
        ApiMatch::Found(x) => {
            if is_known_module(x.as_str()) {
                Ok(x)
            } else {
                Err(AppError::Forbidden(owned("module not allowed")))
            }
        },
        ApiMatch::FoundNoModule => Err(AppError::Forbidden(owned("module not allowed"))),
        ApiMatch::NotFound => Err(AppError::Forbidden(owned("access denied"))),
    }
}

/// The third check: the tenant has a plan.
pub fn plan_check(plan_id: Option<i64>) -> (r: Result<i64, AppError>)
    ensures
        match plan_id {
            Some(p) => r == Ok::<i64, AppError>(p),
            None => r matches Err(e) && is_forbidden(e, "no subscription plan"@),
        },
{
    match plan_id {
        Some(p) => Ok(p),
        None => Err(AppError::Forbidden(owned("no subscription plan"))),
    }
}

/// The last check: the plan lists the module (`count` rows of
/// `sys_plan_modules` name it).
pub fn whitelist_check(count: i64) -> (r: Result<(), AppError>)
    ensures
        count == 0 ==> (r matches Err(e) && is_forbidden(e, "module not allowed"@)),
        count != 0 ==> r is Ok,
{
    if count == 0 {
        Err(AppError::Forbidden(owned("module not allowed")))
    } else {
        Ok(())
    }
}

/// Whether the access check applies to a request: only for a verified tenant user
/// (a non-zero tenant) and only with a database to ask.
pub fn check_applies(tid: Option<i64>, has_db: bool) -> (r: bool)
    ensures
        r == (tid matches Some(t) && t != 0 && has_db),
{
    match tid {
        Some(t) => t != 0 && has_db,
        None => false,
    }
}

/// The message of the 403 that answers a failed check: the check's own
/// message for a refusal, `access denied` for any other failure.
pub fn denial_message(e: &AppError) -> (r: String)
    ensures
        match e {
            AppError::Forbidden(m) => r@ == m@,
            _ => r@ == "access denied"@,
        },
{
    match e {
        AppError::Forbidden(m) => m.clone(),
        _ => owned("access denied"),
    }
}

/// Where the tenant access check of a request stands.
pub enum GateState {
    Start,
    /// Waiting for the tenant's row.
    AwaitTenant,
    /// Waiting for the registered API that the request matches; the tenant's
    /// plan as its row gave it.
    AwaitApi { plan_id: Option<i64> },
    /// Waiting for how many whitelist rows name the module.
    AwaitCount,
    Done,
}

/// What the store answered to the last query.
pub enum GateReply {
    Nothing,
    /// The tenant's row, none when the tenant does not exist.
    Tenant(Option<TenantAccessRow>),
    /// The registered API that the request matches (see `find_api_module`).
    Api(ApiMatch),
    /// The number of `sys_plan_modules` rows that name the module.
    Count(i64),
}

/// What the check does next.
pub enum GateAction {
    QueryTenant,
    QueryApi,
    QueryWhitelist { plan_id: i64, module: String },
    Allow,
    Deny(AppError),
}

pub open spec fn gate_reply_fits(s: GateState, reply: GateReply) -> bool {
    match s {
        GateState::Start => reply is Nothing,
        GateState::AwaitTenant => reply is Tenant,
        GateState::AwaitApi { .. } => reply is Api,
        GateState::AwaitCount => reply is Count,
        GateState::Done => false,
    }
}

/// One step of the tenant access check, in its order: the tenant must exist
/// and be active, and not read-only by expiry for a write; then the request
/// must match a registered API of a known module; then the tenant must have
/// a plan, and the plan must list the module.
pub fn gate_step(s: GateState, reply: GateReply, method: &str) -> (r: (GateState, GateAction))
    requires
        gate_reply_fits(s, reply),
    ensures
        match reply {
            GateReply::Nothing => r.0 is AwaitTenant && r.1 is QueryTenant,
            GateReply::Tenant(row) => match row {
                None => r.0 is Done && (r.1 matches GateAction::Deny(e) && is_forbidden(e, "access denied"@)),
                Some(t) => if !opt_is(t.status, "ON"@) {
                    r.0 is Done && (r.1 matches GateAction::Deny(e) && is_forbidden(e, "tenant is not active"@))
                } else if t.expired && opt_is(t.expiry_policy, "READONLY"@) && !read_method(method@) {
                    r.0 is Done && (r.1 matches GateAction::Deny(e) && is_forbidden(
                        e,
                        "tenant is read-only due to expiry"@,
                    ))
                } else {
                    (r.0 matches GateState::AwaitApi { plan_id } && plan_id == t.plan_id) && r.1 is QueryApi
                },
            },
            GateReply::Api(m) => match m {
                ApiMatch::Found(x) => if !known_module(x@) {
                    r.0 is Done && (r.1 matches GateAction::Deny(e) && is_forbidden(e, "module not allowed"@))
                } else {
                    match s {
                        GateState::AwaitApi { plan_id: Some(p) } => r.0 is AwaitCount && (
                        r.1 matches GateAction::QueryWhitelist { plan_id, module } && plan_id == p
                            && module@ == x@),
                        _ => r.0 is Done && (r.1 matches GateAction::Deny(e) && is_forbidden(
                            e,
                            "no subscription plan"@,
                        )),
                    }
                },
                ApiMatch::FoundNoModule => r.0 is Done && (r.1 matches GateAction::Deny(e) && is_forbidden(
                    e,
                    "module not allowed"@,
                )),
                ApiMatch::NotFound => r.0 is Done && (r.1 matches GateAction::Deny(e) && is_forbidden(
                    e,
                    "access denied"@,
                )),
            },
            GateReply::Count(c) => r.0 is Done && if c == 0 {
                r.1 matches GateAction::Deny(e) && is_forbidden(e, "module not allowed"@)
            } else {
                r.1 is Allow
            },
        },
{
    match reply {
        GateReply::Nothing => (GateState::AwaitTenant, GateAction::QueryTenant),
        GateReply::Tenant(row) => {
            let checked = match &row {
                Some(t) => tenant_state_check(Some(t), method),
                None => tenant_state_check(None, method),
            };
            match checked {
                Ok(plan_id) => (GateState::AwaitApi { plan_id }, GateAction::QueryApi),
                Err(e) => (GateState::Done, GateAction::Deny(e)),
            }
        },
        GateReply::Api(m) => {
            let plan = match s {
                GateState::AwaitApi { plan_id } => plan_id,
                _ => None,
            };
            match module_check(m) {
                Err(e) => (GateState::Done, GateAction::Deny(e)),
                Ok(module) => match plan_check(plan) {
                    Ok(plan_id) => (GateState::AwaitCount, GateAction::QueryWhitelist { plan_id, module }),
                    Err(e) => (GateState::Done, GateAction::Deny(e)),
                },
            }
        },
        GateReply::Count(c) => match whitelist_check(c) {
            Ok(()) => (GateState::Done, GateAction::Allow),
            Err(e) => (GateState::Done, GateAction::Deny(e)),
        },
    }
}

} // verus!
