//! The dashboard: overview counts, the daily sign-in trend (days in
//! order, empty days counted as zero) and the distributions of operation
//! actions and sign-in results.

use vstd::prelude::*;
use vstd::string::*;
use crate::text::{parse_i64, parse_i64_spec, str_eq};

verus! {

pub struct DashboardOverviewDto {
    pub user_count: u64,
    pub role_count: u64,
    pub today_login_count: u64,
    pub today_operation_count: u64,
}

pub struct TrendPointDto {
    pub date: String,
    pub count: u64,
}

pub struct TrendResponseDto {
    pub points: Vec<TrendPointDto>,
}

pub struct DistributionItemDto {
    pub label: String,
    pub count: u64,
}

pub struct DistributionResponseDto {
    pub items: Vec<DistributionItemDto>,
}

/// The number of days of the trend: the `days` parameter when it is a
/// positive integer, else 7.
pub fn trend_days(param: Option<&str>) -> (r: i64)
    ensures
        r == match param {
            Some(s) => match parse_i64_spec(s@) {
                Some(d) => if d > 0 {
                    d
                } else {
                    7
                },
                None => 7,
            },
            None => 7,
        },
{
    match param {
        Some(s) => match parse_i64(s) {
            Some(d) => if d > 0 {
                d
            } else {
                7
            },
            None => 7,
        },
        None => 7,
    }
}

/// A count read from the database (as the bits of the signed value).
pub fn to_count(n: i64) -> (r: u64)
    ensures
        r == n as u64,
{
    n as u64
}

/// The index of the last day named `d`, or -1.
pub open spec fn last_day(days: Seq<Seq<char>>, d: Seq<char>) -> int
    decreases days.len(),
{
    if days.len() == 0 {
        -1
    } else if days.last() == d {
        days.len() - 1
    } else {
        last_day(days.drop_last(), d)
    }
}

/// How many of `events` fall in bucket `i` (the last bucket of their day).
pub open spec fn bucket_count(days: Seq<Seq<char>>, events: Seq<Seq<char>>, i: int) -> nat
    decreases events.len(),
{
    if events.len() == 0 {
        0
    } else {
        bucket_count(days, events.drop_last(), i) + if last_day(days, events.last()) == i {
            1nat
        } else {
            0nat
        }
    }
}

proof fn lemma_last_day(days: Seq<Seq<char>>, d: Seq<char>)
    ensures
        -1 <= last_day(days, d) < days.len(),
        last_day(days, d) >= 0 ==> days[last_day(days, d)] == d,
        last_day(days, d) < 0 ==> forall|k: int| 0 <= k < days.len() ==> days[k] != d,
        last_day(days, d) >= 0 ==> forall|k: int| last_day(days, d) < k < days.len() ==> days[k] != d,
    decreases days.len(),
{
    if days.len() > 0 {
        let p = days.drop_last();
        lemma_last_day(p, d);
        assert forall|k: int| 0 <= k < p.len() implies p[k] == days[k] by {}
    }
}

proof fn lemma_bucket_count_le(days: Seq<Seq<char>>, events: Seq<Seq<char>>, i: int)
    ensures
        bucket_count(days, events, i) <= events.len(),
    decreases events.len(),
{
    if events.len() > 0 {
        lemma_bucket_count_le(days, events.drop_last(), i);
    }
}

pub open spec fn day_views(days: Seq<String>) -> Seq<Seq<char>> {
    days.map_values(|d: String| d@)
}

fn find_day(days: &Vec<String>, d: &str) -> (r: Option<usize>)
    ensures
        match r {
            Some(f) => f < days.len() && f == last_day(day_views(days@), d@),
            None => last_day(day_views(days@), d@) < 0,
        },
{
    let ghost dv = day_views(days@);
    proof {
        lemma_last_day(dv, d@);
    }
    let mut k: usize = days.len();
    while k > 0
        invariant
            k <= days.len(),
            dv == day_views(days@),
            forall|q: int| k <= q < days.len() ==> dv[q] != d@,
        decreases k,
    {
        assert(dv[k - 1] == days@[k - 1]@);
        if str_eq(days[k - 1].as_str(), d) {
            proof {
                lemma_last_day(dv, d@);
                let g = last_day(dv, d@);
                if g < 0 {
                    assert(dv[k - 1] != d@);
                } else if g > k - 1 {
                    assert(dv[g] != d@);
                } else if g < k - 1 {
                    assert(dv[k - 1] != d@);
                }
            }
            return Some(k - 1);
        }
        k -= 1;
    }
    None
}

/// The trend points: each day (in the given order) with the number of
/// sign-ins on it (a sign-in counts in the last bucket of its day).
pub fn trend_points(days: &Vec<String>, events: &Vec<String>) -> (r: Vec<TrendPointDto>)
    requires
        events.len() <= u64::MAX,
    ensures
        r.len() == days.len(),
        forall|i: int|
            0 <= i < r.len() ==> (#[trigger] r@[i]).date@ == days@[i]@ && r@[i].count == bucket_count(
                day_views(days@),
                day_views(events@),
                i,
            ),
{
    let ghost dv = day_views(days@);
    let ghost ev = day_views(events@);
    let mut counts: Vec<u64> = Vec::new();
    let mut j: usize = 0;
    while j < days.len()
        invariant
            j <= days.len(),
            counts.len() == j,
            forall|q: int| 0 <= q < j ==> counts@[q] == 0,
        decreases days.len() - j,
    {
        counts.push(0);
        j += 1;
    }
    let mut e: usize = 0;
    proof {
        assert(ev.subrange(0, 0) =~= Seq::<Seq<char>>::empty());
    }
    while e < events.len()
        invariant
            e <= events.len(),
            events.len() <= u64::MAX,
            dv == day_views(days@),
            ev == day_views(events@),
            counts.len() == days.len(),
            forall|q: int| 0 <= q < days.len() ==> #[trigger] counts@[q] == bucket_count(dv, ev.subrange(0, e as int), q),
        decreases events.len() - e,
    {
        let ghost before = counts@;
        proof {
            assert(ev.subrange(0, e + 1).drop_last() =~= ev.subrange(0, e as int));
            assert(ev.subrange(0, e + 1).last() == events@[e as int]@);
            lemma_last_day(dv, events@[e as int]@);
        }
        let found = find_day(days, events[e].as_str());
        if let Some(f) = found {
            proof {
                lemma_bucket_count_le(dv, ev.subrange(0, e as int), f as int);
            }
            let c = counts[f];
            counts.set(f, c + 1);
        }
        e += 1;
    }
    proof {
        assert(ev.subrange(0, events.len() as int) =~= ev);
    }
    let mut out: Vec<TrendPointDto> = Vec::new();
    let mut i: usize = 0;
    while i < days.len()
        invariant
            i <= days.len(),
            counts.len() == days.len(),
            dv == day_views(days@),
            ev == day_views(events@),
            forall|q: int| 0 <= q < days.len() ==> #[trigger] counts@[q] == bucket_count(dv, ev, q),
            out.len() == i,
            forall|q: int|
                0 <= q < i ==> (#[trigger] out@[q]).date@ == days@[q]@ && out@[q].count == bucket_count(
                    dv,
                    ev,
                    q,
                ),
        decreases days.len() - i,
    {
        out.push(TrendPointDto { date: days[i].clone(), count: counts[i] });
        i += 1;
    }
    out
}

/// A distribution entry as read: an absent label is empty, an absent count 0.
pub fn distribution_item(label: Option<String>, count: Option<i64>) -> (r: DistributionItemDto)
    ensures
        r.label@ == match label {
            Some(l) => l@,
            None => Seq::<char>::empty(),
        },
        r.count == match count {
            Some(n) => n as u64,
            None => 0u64,
        },
{
    DistributionItemDto {
        label: match label {
            Some(l) => l,
            None => String::new(),
        },
        count: match count {
            Some(n) => n as u64,
            None => 0,
        },
    }
}

} // verus!
