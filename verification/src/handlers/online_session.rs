//! Online sessions: the session records of signed-in users, listed newest
//! first (filtered by a keyword and paged for administrators, one's own for
//! users), and the checks of forced and own sign-outs.

use vstd::prelude::*;
use vstd::string::*;
use crate::auth::SessionMeta;
use crate::error::{AppError, is_validation};
use crate::text::{
    trim, trim_str, has_infix, unicode_lowercase, to_lowercase, contains, str_eq, seq_lt, str_less,
    lemma_seq_lt_transitive, lemma_seq_lt_total, lemma_seq_lt_irreflexive, parse_unsigned,
    parse_unsigned_spec,
};

verus! {

pub struct OnlineSessionDto {
    /// Whether this is the caller's own session (only in one's own listing).
    pub current: Option<bool>,
    pub jti: String,
    pub user_id: i64,
    pub username: String,
    pub tenant_id: i64,
    /// admin | app
    pub client_type: String,
    pub ip_address: String,
    pub user_agent: String,
    pub device_id: String,
    pub login_at: String,
}

pub struct ForceLogoutBody {
    pub client_type: Option<String>,
    pub user_id: Option<i64>,
    pub jti: Option<String>,
}

pub struct RevokeMyBody {
    pub client_type: Option<String>,
    pub jti: Option<String>,
}

/// A session as listed: `current` tells (when asked for with the caller's
/// token id) whether its token id is that one and not empty.
pub fn to_dto(m: &SessionMeta, current_jti: Option<&str>) -> (d: OnlineSessionDto)
    ensures
        d.current == match current_jti {
            Some(j) => Some(m.jti@.len() > 0 && m.jti@ == j@),
            None => None::<bool>,
        },
        d.jti@ == m.jti@,
        d.user_id == m.uid,
        d.username@ == m.username@,
        d.tenant_id == m.tenant_id,
        d.client_type@ == m.client_type@,
        d.ip_address@ == m.ip@,
        d.user_agent@ == m.ua@,
        d.device_id@ == m.dev@,
        d.login_at@ == m.login_at@,
{
    OnlineSessionDto {
        current: match current_jti {
            Some(j) => Some(m.jti.unicode_len() > 0 && str_eq(m.jti.as_str(), j)),
            None => None,
        },
        jti: m.jti.clone(),
        user_id: m.uid,
        username: m.username.clone(),
        tenant_id: m.tenant_id,
        client_type: m.client_type.clone(),
        ip_address: m.ip.clone(),
        user_agent: m.ua.clone(),
        device_id: m.dev.clone(),
        login_at: m.login_at.clone(),
    }
}

/// Whether a session matches a keyword: any session for an empty keyword,
/// else one whose user name or IP contains it, case-insensitively.
pub open spec fn session_matches(m: SessionMeta, keyword: Seq<char>) -> bool {
    keyword.len() == 0 || has_infix(unicode_lowercase(m.username@), unicode_lowercase(keyword))
        || has_infix(unicode_lowercase(m.ip@), unicode_lowercase(keyword))
}

pub fn matches_keyword(m: &SessionMeta, keyword: &str) -> (r: bool)
    ensures
        r == session_matches(*m, keyword@),
{
    if keyword.unicode_len() == 0 {
        return true;
    }
    let k = to_lowercase(keyword);
    contains(to_lowercase(m.username.as_str()).as_str(), k.as_str()) || contains(
        to_lowercase(m.ip.as_str()).as_str(),
        k.as_str(),
    )
}

/// Whether entry `a` is listed before entry `b`: newer sign-in first (the
/// sign-in times compared as strings), ties in the given order.
pub open spec fn newer_first(times: Seq<Seq<char>>, a: int, b: int) -> bool {
    seq_lt(times[b], times[a]) || (times[a] == times[b] && a < b)
}

/// `order` lists every index once, newest sign-in first (a stable sort).
pub open spec fn sorted_newest_first(times: Seq<Seq<char>>, order: Seq<usize>) -> bool {
    &&& order.len() == times.len()
    &&& forall|k: int| 0 <= k < order.len() ==> order[k] < times.len()
    &&& forall|k: int, l: int|
        0 <= k < l < order.len() ==> newer_first(times, #[trigger] order[k] as int, #[trigger] order[l] as int)
}

pub open spec fn login_times(items: Seq<OnlineSessionDto>) -> Seq<Seq<char>> {
    items.map_values(|d: OnlineSessionDto| d.login_at@)
}

/// The entries' indices, newest sign-in first.
pub fn newest_first_order(items: &Vec<OnlineSessionDto>) -> (r: Vec<usize>)
    ensures
        sorted_newest_first(login_times(items@), r@),
{
    let ghost ts = login_times(items@);
    let mut order: Vec<usize> = Vec::new();
    let mut i: usize = 0;
    while i < items.len()
        invariant
            i <= items.len(),
            ts == login_times(items@),
            order.len() == i,
            forall|k: int| 0 <= k < order.len() ==> order@[k] < i,
            forall|k: int, l: int|
                0 <= k < l < order.len() ==> newer_first(ts, #[trigger] order@[k] as int, #[trigger] order@[l] as int),
        decreases items.len() - i,
    {
        let t = items[i].login_at.as_str();
        let mut pos: usize = 0;
        while pos < order.len() && !str_less(items[order[pos]].login_at.as_str(), t)
            invariant
                pos <= order.len(),
                i < items.len(),
                t@ == ts[i as int],
                ts == login_times(items@),
                forall|k: int| 0 <= k < order.len() ==> order@[k] < i,
                forall|k: int| 0 <= k < pos ==> !seq_lt(ts[#[trigger] order@[k] as int], ts[i as int]),
            decreases order.len() - pos,
        {
            pos += 1;
        }
        let ghost old_order = order@;
        order.insert(pos, i);
        proof {
            assert forall|k: int, l: int| 0 <= k < l < order.len() implies newer_first(
                ts,
                #[trigger] order@[k] as int,
                #[trigger] order@[l] as int,
            ) by {
                if l < pos {
                    assert(order@[k] == old_order[k] && order@[l] == old_order[l]);
                } else if l == pos {
                    let a = old_order[k] as int;
                    assert(!seq_lt(ts[a], ts[i as int]));
                    lemma_seq_lt_total(ts[a], ts[i as int]);
                } else if k < pos {
                    assert(order@[k] == old_order[k] && order@[l] == old_order[l - 1]);
                } else if k == pos {
                    let p = old_order[pos as int] as int;
                    let q = old_order[l - 1] as int;
                    assert(order@[l] == old_order[l - 1]);
                    assert(seq_lt(ts[p], ts[i as int]));
                    if l - 1 > pos {
                        assert(newer_first(ts, p, q));
                        if seq_lt(ts[q], ts[p]) {
                            lemma_seq_lt_transitive(ts[q], ts[p], ts[i as int]);
                        }
                    }
                } else {
                    assert(order@[k] == old_order[k - 1] && order@[l] == old_order[l - 1]);
                }
            }
        }
        i += 1;
    }
    order
}

/// The window `[start, end)` of page `page` (from 1) of `page_size` entries
/// among `total`: empty past the end.
pub open spec fn page_window(total: int, page: int, page_size: int) -> (int, int) {
    let start = (page - 1) * page_size;
    if start >= total {
        (total, total)
    } else if start + page_size < total {
        (start, start + page_size)
    } else {
        (start, total)
    }
}

/// A page number or size from a query value: a number, else the default;
/// at least 1.
pub fn page_param(v: Option<&str>, default: u64) -> (r: u64)
    ensures
        r == ({
            let n = match v {
                Some(s) => match parse_unsigned_spec(s@, u64::MAX as int) {
                    Some(x) => x,
                    None => default as int,
                },
                None => default as int,
            };
            if n < 1 {
                1
            } else {
                n
            }
        }),
{
    let n = match v {
        Some(s) => match parse_unsigned(s, u64::MAX) {
            Some(x) => x,
            None => default,
        },
        None => default,
    };
    if n < 1 {
        1
    } else {
        n
    }
}

/// The entries listed to administrators: the sessions that match the
/// keyword, newest first, the given page of them; and how many match.
pub fn sessions_page(metas: &Vec<SessionMeta>, keyword: &str, page: u64, page_size: u64) -> (r: (
    Vec<OnlineSessionDto>,
    u64,
))
    requires
        page >= 1,
        page_size >= 1,
        (page - 1) * page_size + page_size <= u64::MAX,
    ensures
        ({
            let all = metas@.filter(|m: SessionMeta| session_matches(m, keyword@));
            &&& r.1 == all.len()
            &&& exists|matched: Seq<OnlineSessionDto>, order: Seq<usize>|
                {
                    &&& matched.len() == all.len()
                    &&& (forall|k: int| 0 <= k < all.len() ==> (#[trigger] matched[k]).jti@ == all[k].jti@
                        && matched[k].login_at@ == all[k].login_at@ && matched[k].user_id == all[k].uid
                        && matched[k].current is None)
                    &&& sorted_newest_first(login_times(matched), order)
                    &&& ({
                        let w = page_window(all.len() as int, page as int, page_size as int);
                        &&& r.0.len() == w.1 - w.0
                        &&& forall|k: int| 0 <= k < r.0.len() ==> r.0@[k] == matched[order[w.0 + k] as int]
                    })
                }
        }),
{
    let ghost all = metas@.filter(|m: SessionMeta| session_matches(m, keyword@));
    let mut matched: Vec<OnlineSessionDto> = Vec::new();
    let mut i: usize = 0;
    while i < metas.len()
        invariant
            i <= metas.len(),
            all == metas@.filter(|m: SessionMeta| session_matches(m, keyword@)),
            matched.len() == metas@.subrange(0, i as int).filter(|m: SessionMeta| session_matches(m, keyword@)).len(),
            forall|k: int|
                0 <= k < matched.len() ==> {
                    let f = metas@.subrange(0, i as int).filter(|m: SessionMeta| session_matches(m, keyword@));
                    (#[trigger] matched@[k]).jti@ == f[k].jti@ && matched@[k].login_at@ == f[k].login_at@
                        && matched@[k].user_id == f[k].uid && matched@[k].current is None
                },
        decreases metas.len() - i,
    {
        proof {
            reveal(Seq::filter);
            assert(metas@.subrange(0, i + 1).drop_last() =~= metas@.subrange(0, i as int));
        }
        if matches_keyword(&metas[i], keyword) {
            matched.push(to_dto(&metas[i], None));
        }
        i += 1;
    }
    proof {
        assert(metas@.subrange(0, metas.len() as int) =~= metas@);
    }
    let order = newest_first_order(&matched);
    let total = matched.len() as u64;
    let start = (page - 1) * page_size;
    let (from, to): (u64, u64) = if start >= total {
        (total, total)
    } else if start + page_size < total {
        (start, start + page_size)
    } else {
        (start, total)
    };
    let mut out: Vec<OnlineSessionDto> = Vec::new();
    let mut k: u64 = from;
    while k < to
        invariant
            from <= k <= to <= total,
            total == matched.len(),
            order@.len() == matched.len(),
            forall|q: int| 0 <= q < order@.len() ==> order@[q] < matched.len(),
            out.len() == k - from,
            forall|q: int| 0 <= q < out.len() ==> out@[q] == matched@[order@[from + q] as int],
        decreases to - k,
    {
        let m = &matched[order[k as usize]];
        out.push(
            OnlineSessionDto {
                current: m.current,
                jti: m.jti.clone(),
                user_id: m.user_id,
                username: m.username.clone(),
                tenant_id: m.tenant_id,
                client_type: m.client_type.clone(),
                ip_address: m.ip_address.clone(),
                user_agent: m.user_agent.clone(),
                device_id: m.device_id.clone(),
                login_at: m.login_at.clone(),
            },
        );
        k += 1;
    }
    (out, total)
}


/// One's own sessions: those of the user, marked current by the caller's
/// token id, newest first.
pub fn my_sessions(metas: &Vec<SessionMeta>, user_id: i64, jti: &str) -> (r: Vec<OnlineSessionDto>)
    ensures
        r.len() == metas@.filter(|m: SessionMeta| m.uid == user_id).len(),
        exists|mine: Seq<OnlineSessionDto>, order: Seq<usize>|
            #![trigger sorted_newest_first(login_times(mine), order)]
            {
                let own = metas@.filter(|m: SessionMeta| m.uid == user_id);
                &&& mine.len() == own.len()
                &&& (forall|k: int|
                    0 <= k < own.len() ==> (#[trigger] mine[k]).jti@ == own[k].jti@ && mine[k].login_at@
                        == own[k].login_at@ && mine[k].current == Some(
                        own[k].jti@.len() > 0 && own[k].jti@ == jti@,
                    ))
                &&& sorted_newest_first(login_times(mine), order)
                &&& forall|k: int| 0 <= k < r.len() ==> r@[k] == mine[order[k] as int]
            },
{
    let mut mine: Vec<OnlineSessionDto> = Vec::new();
    let mut i: usize = 0;
    while i < metas.len()
        invariant
            i <= metas.len(),
            mine.len() == metas@.subrange(0, i as int).filter(|m: SessionMeta| m.uid == user_id).len(),
            forall|k: int|
                0 <= k < mine.len() ==> {
                    let f = metas@.subrange(0, i as int).filter(|m: SessionMeta| m.uid == user_id);
                    (#[trigger] mine@[k]).jti@ == f[k].jti@ && mine@[k].login_at@ == f[k].login_at@
                        && mine@[k].current == Some(f[k].jti@.len() > 0 && f[k].jti@ == jti@)
                },
        decreases metas.len() - i,
    {
        proof {
            reveal(Seq::filter);
            assert(metas@.subrange(0, i + 1).drop_last() =~= metas@.subrange(0, i as int));
        }
        if metas[i].uid == user_id {
            mine.push(to_dto(&metas[i], Some(jti)));
        }
        i += 1;
    }
    proof {
        assert(metas@.subrange(0, metas.len() as int) =~= metas@);
    }
    let order = newest_first_order(&mine);
    let mut out: Vec<OnlineSessionDto> = Vec::new();
    let mut k: usize = 0;
    while k < order.len()
        invariant
            k <= order.len(),
            order@.len() == mine.len(),
            forall|q: int| 0 <= q < order@.len() ==> order@[q] < mine.len(),
            out.len() == k,
            forall|q: int| 0 <= q < out.len() ==> out@[q] == mine@[order@[q] as int],
        decreases order.len() - k,
    {
        let m = &mine[order[k]];
        out.push(
            OnlineSessionDto {
                current: m.current,
                jti: m.jti.clone(),
                user_id: m.user_id,
                username: m.username.clone(),
                tenant_id: m.tenant_id,
                client_type: m.client_type.clone(),
                ip_address: m.ip_address.clone(),
                user_agent: m.user_agent.clone(),
                device_id: m.device_id.clone(),
                login_at: m.login_at.clone(),
            },
        );
        k += 1;
    }
    out
}

/// A token id that is given and not blank, trimmed.
pub fn required_jti(jti: &Option<String>) -> (r: Result<String, AppError>)
    ensures
        match jti {
            Some(j) if trim(j@).len() > 0 => r matches Ok(s) && s@ == trim(j@),
            _ => r matches Err(e) && is_validation(e, "jti is required"@),
        },
{
    match jti {
        Some(j) => {
            let t = trim_str(j.as_str());
            if t.unicode_len() > 0 {
                Ok(t)
            } else {
                Err(AppError::Validation(String::from_str("jti is required")))
            }
        },
        None => Err(AppError::Validation(String::from_str("jti is required"))),
    }
}

/// What a forced sign-out revokes: the user (required), the trimmed token
/// id (required), and the client types (the given one when not blank, else
/// both `admin` and `app`).
pub fn force_logout_targets(body: &ForceLogoutBody) -> (r: Result<(i64, String, Vec<String>), AppError>)
    ensures
        match body.user_id {
            None => r matches Err(e) && is_validation(e, "userId is required"@),
            Some(uid) => match body.jti {
                Some(j) if trim(j@).len() > 0 => r matches Ok((u, t, cts)) && u == uid && t@ == trim(
                    j@,
                ) && match body.client_type {
                    Some(c) if trim(c@).len() > 0 => cts@.len() == 1 && cts@[0]@ == c@,
                    _ => cts@.len() == 2 && cts@[0]@ == "admin"@ && cts@[1]@ == "app"@,
                },
                _ => r matches Err(e) && is_validation(e, "jti is required"@),
            },
        },
{
    let uid = match body.user_id {
        Some(u) => u,
        None => {
            return Err(AppError::Validation(String::from_str("userId is required")));
        },
    };
    let jti = required_jti(&body.jti)?;
    let mut cts: Vec<String> = Vec::new();
    let given = match &body.client_type {
        Some(c) => trim_str(c.as_str()).unicode_len() > 0,
        None => false,
    };
    if given {
        match &body.client_type {
            Some(c) => cts.push(c.clone()),
            None => {},
        }
    } else {
        cts.push(String::from_str("admin"));
        cts.push(String::from_str("app"));
    }
    Ok((uid, jti, cts))
}

/// Whether the user has a session with this token id.
pub fn owns_session(metas: &Vec<SessionMeta>, user_id: i64, jti: &str) -> (r: bool)
    ensures
        r == exists|k: int| 0 <= k < metas.len() && (#[trigger] metas@[k]).uid == user_id && metas@[k].jti@ == jti@,
{
    let mut i: usize = 0;
    while i < metas.len()
        invariant
            i <= metas.len(),
            forall|k: int| 0 <= k < i ==> !((#[trigger] metas@[k]).uid == user_id && metas@[k].jti@ == jti@),
        decreases metas.len() - i,
    {
        if metas[i].uid == user_id && str_eq(metas[i].jti.as_str(), jti) {
            return true;
        }
        i += 1;
    }
    false
}

/// The outcome of checking one's own sign-out of a session: it must exist.
pub fn check_own_session(owned: bool) -> (r: Result<(), AppError>)
    ensures
        owned ==> r is Ok,
        !owned ==> (r matches Err(AppError::NotFound(m)) && m@ == "session not found or already offline"@),
{
    if owned {
        Ok(())
    } else {
        Err(AppError::NotFound(String::from_str("session not found or already offline")))
    }
}

/// The client type of one's own sign-out: the given one when not blank,
/// else the caller's.
pub fn revoke_client_type(body: &RevokeMyBody, operator_client_type: &str) -> (r: String)
    ensures
        r@ == match body.client_type {
            Some(c) if trim(c@).len() > 0 => c@,
            _ => operator_client_type@,
        },
{
    match &body.client_type {
        Some(c) => if trim_str(c.as_str()).unicode_len() > 0 {
            c.clone()
        } else {
            String::from_str(operator_client_type)
        },
        None => String::from_str(operator_client_type),
    }
}

} // verus!
