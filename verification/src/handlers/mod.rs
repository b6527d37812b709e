//! Request handlers: the DTOs of each resource, the row-to-DTO conversions,
//! enum normalisation and request validation, and the decisions that each
//! endpoint takes between its storage calls.

use vstd::prelude::*;
use vstd::string::*;
use crate::error::{AppError, is_validation};
use crate::text::{ascii_upper, lemma_ascii_upper_idempotent, trim, to_ascii_upper, str_eq, trim_str, cat};

pub mod access_key;
pub mod upsert;
pub mod menu;
pub mod file;
pub mod login_policy;
pub mod user;
pub mod tenant;
pub mod task;
pub mod script_log;
pub mod script;
pub mod plan_module;
pub mod plan_quota;
pub mod role;
pub mod position;
pub mod language;
pub mod internal_message_recipient;
pub mod internal_message_category;
pub mod internal_message;
pub mod config;
pub mod dict_entry;
pub mod dict_type;
pub mod plan;
pub mod permission;
pub mod api;
pub mod file_transfer;
pub mod server_monitor;
pub mod dashboard;
pub mod user_profile;
pub mod admin_portal;
pub mod permission_group;
pub mod org_unit;
pub mod online_session;
pub mod notification_channel;
pub mod mfa;
pub mod authentication;
pub mod audit_logs;

verus! {

/// Whether some element of `ws` reads `s`.
pub open spec fn words_contain(ws: Seq<&str>, s: Seq<char>) -> bool {
    exists|i: int| 0 <= i < ws.len() && (#[trigger] ws[i])@ == s
}

/// The result of upper-casing an enum value `v`: the upper-cased value when
/// `ok` accepts it, else the validation error `prefix` followed by `v`.
pub open spec fn upper_enum(
    r: Result<String, AppError>,
    v: Seq<char>,
    ok: spec_fn(Seq<char>) -> bool,
    prefix: Seq<char>,
) -> bool {
    match r {
        Ok(u) => ok(ascii_upper(v)) && u@ == ascii_upper(v),
        Err(e) => !ok(ascii_upper(v)) && is_validation(e, prefix + v),
    }
}

/// A given enum value that `ok` rejects once upper-cased.
pub open spec fn enum_rejected(v: Option<String>, ok: spec_fn(Seq<char>) -> bool) -> bool {
    v matches Some(x) && !ok(ascii_upper(x@))
}

/// The result of upper-casing an optional enum value `v`: `None` for a value in
/// `zero` (the unset value), the upper-cased value when `ok` accepts it, else
/// the validation error `prefix` followed by the upper-cased `v`.
pub open spec fn upper_enum_opt(
    r: Result<Option<String>, AppError>,
    v: Seq<char>,
    ok: spec_fn(Seq<char>) -> bool,
    zero: spec_fn(Seq<char>) -> bool,
    prefix: Seq<char>,
) -> bool {
    let u = ascii_upper(v);
    match r {
        Ok(Some(x)) => ok(u) && !zero(u) && x@ == u,
        Ok(None) => zero(u),
        Err(e) => !ok(u) && !zero(u) && is_validation(e, prefix + u),
    }
}

/// An absent value or one that is empty once trimmed.
pub open spec fn blank(o: Option<String>) -> bool {
    match o {
        None => true,
        Some(s) => trim(s@).len() == 0,
    }
}

/// The trimmed value, or the empty sequence when absent.
pub open spec fn trimmed_or_empty(o: Option<String>) -> Seq<char> {
    match o {
        None => Seq::<char>::empty(),
        Some(s) => trim(s@),
    }
}

/// Whether `s` is one of `ws`.
pub fn member(s: &str, ws: &[&str]) -> (r: bool)
    ensures
        r == words_contain(ws@, s@),
{
    let mut i: usize = 0;
    while i < ws.len()
        invariant
            i <= ws.len(),
            forall|j: int| 0 <= j < i ==> (#[trigger] ws@[j])@ != s@,
        decreases ws.len() - i,
    {
        if str_eq(ws[i], s) {
            assert(ws@[i as int]@ == s@);
            return true;
        }
        i += 1;
    }
    false
}

/// Upper-cases `v` and accepts it when it is one of `allowed`.
pub fn normalize_upper(v: &str, allowed: &[&str], prefix: &str) -> (r: Result<String, AppError>)
    ensures
        upper_enum(r, v@, |s: Seq<char>| words_contain(allowed@, s), prefix@),
{
    let up = to_ascii_upper(v);
    if member(up.as_str(), allowed) {
        Ok(up)
    } else {
        Err(AppError::Validation(cat(prefix, v)))
    }
}

/// Upper-cases `v`: `None` for one of `zero`, the value for one of `allowed`.
pub fn normalize_upper_opt(v: &str, allowed: &[&str], zero: &[&str], prefix: &str) -> (r: Result<
    Option<String>,
    AppError,
>)
    ensures
        upper_enum_opt(
            r,
            v@,
            |s: Seq<char>| words_contain(allowed@, s),
            |s: Seq<char>| words_contain(zero@, s),
            prefix@,
        ),
{
    let up = to_ascii_upper(v);
    if member(up.as_str(), zero) {
        Ok(None)
    } else if member(up.as_str(), allowed) {
        Ok(Some(up))
    } else {
        Err(AppError::Validation(cat(prefix, up.as_str())))
    }
}

/// Whether the optional value is absent or empty once trimmed.
pub fn is_blank(o: &Option<String>) -> (r: bool)
    ensures
        r == blank(*o),
{
    match o {
        None => true,
        Some(s) => {
            let t = trim_str(s.as_str());
            t.unicode_len() == 0
        },
    }
}

/// The trimmed value, or the empty string when absent.
pub fn trimmed(o: &Option<String>) -> (r: String)
    ensures
        r@ == trimmed_or_empty(*o),
{
    match o {
        None => String::new(),
        Some(s) => trim_str(s.as_str()),
    }
}

/// An update with `allowMissing` set on a record that does not exist is
/// carried out as a create.
pub fn update_creates(allow_missing: Option<bool>, found: bool) -> (r: bool)
    ensures
        r == (allow_missing == Some(true) && !found),
{
    match allow_missing {
        Some(true) => !found,
        _ => false,
    }
}

/// The record id of an update: the body's id when given, else the path's.
pub fn update_id(body_id: Option<i64>, path_id: i64) -> (r: i64)
    ensures
        r == match body_id {
            Some(x) => x,
            None => path_id,
        },
{
    match body_id {
        Some(x) => x,
        None => path_id,
    }
}

/// The tenant of a new record: the one in the request data, else the
/// operator's tenant when it is a real tenant (id above zero).
pub fn tenant_or_operator(data_tenant: Option<i64>, operator_tenant: i64) -> (r: Option<i64>)
    ensures
        r == match data_tenant {
            Some(t) => Some(t),
            None => if operator_tenant > 0 {
                Some(operator_tenant)
            } else {
                None
            },
        },
{
    match data_tenant {
        Some(t) => Some(t),
        None => if operator_tenant > 0 {
            Some(operator_tenant)
        } else {
            None
        },
    }
}

/// The data of a create or update body: refused with `data is required`
/// when the body carries none.
pub fn required_data<T>(data: Option<T>) -> (r: Result<T, AppError>)
    ensures
        match data {
            Some(d) => r matches Ok(x) && x == d,
            None => r matches Err(e) && is_validation(e, "data is required"@),
        },
{
    match data {
        Some(d) => Ok(d),
        None => Err(AppError::Validation(String::from_str("data is required"))),
    }
}

/// The positive ids of `s`, each once, in order of first occurrence.
pub open spec fn dedup_positive(s: Seq<i64>) -> Seq<i64>
    decreases s.len(),
{
    if s.len() == 0 {
        Seq::<i64>::empty()
    } else {
        let p = dedup_positive(s.drop_last());
        if s.last() > 0 && !p.contains(s.last()) {
            p.push(s.last())
        } else {
            p
        }
    }
}

/// Appends to `acc` the positive ids of `ids` that it does not hold yet, in order.
pub fn push_positive_unique(acc: &mut Vec<i64>, ids: &Vec<i64>)
    ensures
        final(acc)@ == dedup_from(old(acc)@, ids@),
{
    let mut i: usize = 0;
    assert(ids@.subrange(0, 0) =~= Seq::<i64>::empty());
    while i < ids.len()
        invariant
            i <= ids.len(),
            acc@ == dedup_from(old(acc)@, ids@.subrange(0, i as int)),
        decreases ids.len() - i,
    {
        let x: i64 = ids[i];
        let ghost pre = ids@.subrange(0, i as int);
        assert(ids@.subrange(0, i + 1).drop_last() =~= pre);
        assert(ids@.subrange(0, i + 1).last() == x);
        if x > 0 && !vec_contains(acc, x) {
            acc.push(x);
        }
        i += 1;
    }
    assert(ids@.subrange(0, ids.len() as int) =~= ids@);
}

/// `base` extended by the positive ids of `s` that it lacks, in order.
pub open spec fn dedup_from(base: Seq<i64>, s: Seq<i64>) -> Seq<i64>
    decreases s.len(),
{
    if s.len() == 0 {
        base
    } else {
        let p = dedup_from(base, s.drop_last());
        if s.last() > 0 && !p.contains(s.last()) {
            p.push(s.last())
        } else {
            p
        }
    }
}

/// Deduplicating onto nothing is deduplicating the positive ids alone.
pub proof fn lemma_dedup_from_empty(s: Seq<i64>)
    ensures
        dedup_from(Seq::<i64>::empty(), s) == dedup_positive(s),
    decreases s.len(),
{
    if s.len() > 0 {
        lemma_dedup_from_empty(s.drop_last());
    }
}

/// Whether `x` is an element of `v`.
pub fn vec_contains(v: &Vec<i64>, x: i64) -> (r: bool)
    ensures
        r == v@.contains(x),
{
    let mut i: usize = 0;
    while i < v.len()
        invariant
            i <= v.len(),
            forall|j: int| 0 <= j < i ==> v@[j] != x,
        decreases v.len() - i,
    {
        if v[i] == x {
            assert(v@[i as int] == x);
            return true;
        }
        i += 1;
    }
    false
}

/// Every element of `dedup_from(base, s)` is in `base` or is a positive element of `s`,
/// and no element occurs twice when `base` has no repeats.
pub proof fn lemma_dedup_from_props(base: Seq<i64>, s: Seq<i64>)
    requires
        base.no_duplicates(),
    ensures
        dedup_from(base, s).no_duplicates(),
        forall|x: i64| #[trigger] dedup_from(base, s).contains(x) ==> base.contains(x) || (x > 0
            && s.contains(x)),
        forall|x: i64| x > 0 && #[trigger] s.contains(x) ==> dedup_from(base, s).contains(x),
        forall|x: i64| #[trigger] base.contains(x) ==> dedup_from(base, s).contains(x),
    decreases s.len(),
{
    if s.len() > 0 {
        lemma_dedup_from_props(base, s.drop_last());
        let p = dedup_from(base, s.drop_last());
        let q = dedup_from(base, s);
        assert forall|x: i64| p.contains(x) implies #[trigger] q.contains(x) by {
            let k = choose|k: int| 0 <= k < p.len() && p[k] == x;
            assert(q[k] == x);
        }
        assert forall|x: i64| x > 0 && #[trigger] s.contains(x) implies q.contains(x) by {
            let k = choose|k: int| 0 <= k < s.len() && s[k] == x;
            if k < s.len() - 1 {
                assert(s.drop_last()[k] == x);
                assert(s.drop_last().contains(x));
                assert(p.contains(x));
            } else if !p.contains(x) {
                assert(q[q.len() - 1] == x);
            }
        }
        assert forall|x: i64| #[trigger] q.contains(x) implies base.contains(x) || (x > 0
            && s.contains(x)) by {
            let k = choose|k: int| 0 <= k < q.len() && q[k] == x;
            if k < p.len() {
                assert(p[k] == x);
                assert(p.contains(x));
                if !base.contains(x) {
                    let m = choose|m: int| 0 <= m < s.drop_last().len() && s.drop_last()[m] == x;
                    assert(s[m] == x);
                }
            } else {
                assert(s[s.len() - 1] == x);
            }
        }
    }
}

/// An optional new text value of an update: unchanged when absent, refused
/// with `msg` when blank, trimmed otherwise.
pub open spec fn opt_nonblank(v: Option<String>, msg: Seq<char>, r: Result<Option<String>, AppError>) -> bool {
    match v {
        None => r == Ok::<Option<String>, AppError>(None),
        Some(x) => if trim(x@).len() == 0 {
            r matches Err(e) && is_validation(e, msg)
        } else {
            r matches Ok(Some(t)) && t@ == trim(x@)
        },
    }
}

/// See [`opt_nonblank`].
pub fn optional_nonblank(v: &Option<String>, msg: &str) -> (r: Result<Option<String>, AppError>)
    ensures
        opt_nonblank(*v, msg@, r),
{
    match v {
        None => Ok(None),
        Some(x) => {
            let t = trim_str(x.as_str());
            if t.unicode_len() == 0 {
                Err(AppError::Validation(String::from_str(msg)))
            } else {
                Ok(Some(t))
            }
        },
    }
}

/// A required text value: refused with `msg` when absent or blank, trimmed otherwise.
pub fn required_trimmed(v: &Option<String>, msg: &str) -> (r: Result<String, AppError>)
    ensures
        match r {
            Ok(t) => !blank(*v) && t@ == trimmed_or_empty(*v),
            Err(e) => blank(*v) && is_validation(e, msg@),
        },
{
    let t = trimmed(v);
    if t.unicode_len() == 0 {
        return Err(AppError::Validation(String::from_str(msg)));
    }
    Ok(t)
}

/// An optional enum value: `None` stays `None`; a given value is upper-cased
/// and accepted when `ok` accepts it, else refused with `prefix` and the value.
pub open spec fn opt_upper_enum(
    v: Option<String>,
    ok: spec_fn(Seq<char>) -> bool,
    prefix: Seq<char>,
    r: Result<Option<String>, AppError>,
) -> bool {
    match v {
        None => r == Ok::<Option<String>, AppError>(None),
        Some(x) => match r {
            Ok(Some(u)) => upper_enum(Ok(u), x@, ok, prefix),
            Ok(None) => false,
            Err(e) => upper_enum(Err(e), x@, ok, prefix),
        },
    }
}

/// See [`opt_upper_enum`].
pub fn normalize_upper_option(v: &Option<String>, allowed: &[&str], prefix: &str) -> (r: Result<
    Option<String>,
    AppError,
>)
    ensures
        opt_upper_enum(*v, |s: Seq<char>| words_contain(allowed@, s), prefix@, r),
{
    match v {
        None => Ok(None),
        Some(x) => {
            let u = normalize_upper(x.as_str(), allowed, prefix)?;
            Ok(Some(u))
        },
    }
}

/// The spec of [`tenant_or_operator`].
pub open spec fn tenant_default(data_tenant: Option<i64>, operator_tenant: i64) -> Option<i64> {
    match data_tenant {
        Some(t) => Some(t),
        None => if operator_tenant > 0 {
            Some(operator_tenant)
        } else {
            None
        },
    }
}


/// Whether position `a` comes before position `b` when sorted by `keys`
/// ascending, ties kept in the given order.
pub open spec fn key_before(keys: Seq<i64>, a: int, b: int) -> bool {
    keys[a] < keys[b] || (keys[a] == keys[b] && a < b)
}

/// `order` lists every position once, sorted by `keys` (a stable sort).
pub open spec fn stable_by_key(keys: Seq<i64>, order: Seq<usize>) -> bool {
    &&& order.len() == keys.len()
    &&& forall|k: int| 0 <= k < order.len() ==> order[k] < keys.len()
    &&& forall|k: int, l: int|
        0 <= k < l < order.len() ==> key_before(keys, #[trigger] order[k] as int, #[trigger] order[l] as int)
}

/// The positions of `keys`, sorted by key (stable).
pub fn order_by_key(keys: &Vec<i64>) -> (r: Vec<usize>)
    ensures
        stable_by_key(keys@, r@),
{
    let mut order: Vec<usize> = Vec::new();
    let mut i: usize = 0;
    while i < keys.len()
        invariant
            i <= keys.len(),
            order.len() == i,
            forall|k: int| 0 <= k < order.len() ==> order@[k] < i,
            forall|k: int, l: int|
                0 <= k < l < order.len() ==> key_before(keys@, #[trigger] order@[k] as int, #[trigger] order@[l] as int),
        decreases keys.len() - i,
    {
        let p = keys[i];
        let mut pos: usize = 0;
        while pos < order.len() && keys[order[pos]] <= p
            invariant
                pos <= order.len(),
                p == keys@[i as int],
                i < keys.len(),
                forall|k: int| 0 <= k < order.len() ==> order@[k] < i,
                forall|k: int| 0 <= k < pos ==> keys@[#[trigger] order@[k] as int] <= p,
            decreases order.len() - pos,
        {
            pos += 1;
        }
        let ghost old_order = order@;
        order.insert(pos, i);
        proof {
            assert forall|k: int, l: int| 0 <= k < l < order.len() implies key_before(
                keys@,
                #[trigger] order@[k] as int,
                #[trigger] order@[l] as int,
            ) by {
                if l < pos {
                    assert(order@[k] == old_order[k] && order@[l] == old_order[l]);
                } else if l == pos {
                    assert(keys@[old_order[k] as int] <= p);
                } else if k < pos {
                    assert(order@[k] == old_order[k] && order@[l] == old_order[l - 1]);
                } else if k == pos {
                    assert(order@[l] == old_order[l - 1]);
                    assert(keys@[old_order[pos as int] as int] > p);
                    if l - 1 > pos {
                        assert(key_before(keys@, old_order[pos as int] as int, old_order[l - 1] as int));
                    }
                } else {
                    assert(order@[k] == old_order[k - 1] && order@[l] == old_order[l - 1]);
                }
            }
        }
        i += 1;
    }
    order
}

/// The positions, in the given order, of the entries without a parent (a
/// parent id that is absent, zero or negative).
pub open spec fn root_positions(parents: Seq<Option<i64>>, order: Seq<usize>) -> Seq<usize>
    decreases order.len(),
{
    if order.len() == 0 {
        order
    } else {
        let prev = root_positions(parents, order.drop_last());
        let p = parents[order.last() as int];
        if p matches Some(v) && v > 0 {
            prev
        } else {
            prev.push(order.last())
        }
    }
}

pub fn roots_in_order(parents: &Vec<Option<i64>>, order: &Vec<usize>) -> (r: Vec<usize>)
    requires
        forall|k: int| 0 <= k < order.len() ==> order@[k] < parents.len(),
    ensures
        r@ == root_positions(parents@, order@),
{
    let mut out: Vec<usize> = Vec::new();
    let mut i: usize = 0;
    while i < order.len()
        invariant
            i <= order.len(),
            forall|k: int| 0 <= k < order.len() ==> order@[k] < parents.len(),
            out@ == root_positions(parents@, order@.subrange(0, i as int)),
        decreases order.len() - i,
    {
        proof {
            assert(order@.subrange(0, i + 1).drop_last() =~= order@.subrange(0, i as int));
        }
        let is_child = match parents[order[i]] {
            Some(v) => v > 0,
            None => false,
        };
        if !is_child {
            out.push(order[i]);
        }
        i += 1;
    }
    assert(order@.subrange(0, order.len() as int) =~= order@);
    out
}

/// A chain of distinct elements, each found in `ids`, is no longer than `ids`.
pub proof fn lemma_chain_bound<A>(ids: Seq<A>, chain: Seq<A>)
    requires
        chain.no_duplicates(),
        forall|k: int| 0 <= k < chain.len() ==> ids.contains(#[trigger] chain[k]),
    ensures
        chain.len() <= ids.len(),
{
    broadcast use vstd::set::group_set_axioms;
    chain.unique_seq_to_set();
    ids.lemma_cardinality_of_set();
    assert forall|x: A| chain.to_set().contains(x) implies ids.to_set().contains(x) by {
        let k = chain.index_of(x);
        assert(ids.contains(chain[k]));
    }
    vstd::seq_lib::seq_to_set_is_finite(ids);
    vstd::set_lib::lemma_len_subset(chain.to_set(), ids.to_set());
}


/// Normalising an enum value that normalisation accepted gives the same
/// value back.
pub proof fn lemma_upper_enum_stable(
    first: Result<String, AppError>,
    again: Result<String, AppError>,
    v: Seq<char>,
    ok: spec_fn(Seq<char>) -> bool,
    prefix: Seq<char>,
)
    requires
        upper_enum(first, v, ok, prefix),
        first is Ok,
        upper_enum(again, first->Ok_0@, ok, prefix),
    ensures
        again matches Ok(w) && w@ == first->Ok_0@,
{
    lemma_ascii_upper_idempotent(v);
}

} // verus!
