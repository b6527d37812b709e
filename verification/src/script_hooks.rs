//! The hook points at which scripts run, and the languages each accepts.

use vstd::prelude::*;
use vstd::string::*;
use crate::handlers::{member, words_contain};
use crate::text::{owned, split_char, split_char_str, str_eq, to_lowercase, trim, trim_str, unicode_lowercase, views};

verus! {

/// A hook point and the script languages that it accepts.
pub struct HookPoint {
    pub name: &'static str,
    pub languages: Vec<&'static str>,
}

/// The registered hook points, in order: name and accepted languages.
pub open spec fn hook_table() -> Seq<(Seq<char>, Seq<Seq<char>>)> {
    seq![
        ("user.after_login"@, seq!["lua"@, "javascript"@]),
        ("user.after_create"@, seq!["lua"@]),
        ("tenant.before_expiry_scan"@, seq!["lua"@, "javascript"@]),
        ("order.after_created"@, seq!["lua"@]),
    ]
}

pub open spec fn hook_view(h: HookPoint) -> (Seq<char>, Seq<Seq<char>>) {
    (h.name@, h.languages@.map_values(|l: &'static str| l@))
}

/// The registry of hook points.
pub fn hook_points() -> (r: Vec<HookPoint>)
    ensures
        r@.map_values(|h: HookPoint| hook_view(h)) == hook_table(),
{
    let r = vec![
        HookPoint { name: "user.after_login", languages: vec!["lua", "javascript"] },
        HookPoint { name: "user.after_create", languages: vec!["lua"] },
        HookPoint { name: "tenant.before_expiry_scan", languages: vec!["lua", "javascript"] },
        HookPoint { name: "order.after_created", languages: vec!["lua"] },
    ];
    assert(r@.map_values(|h: HookPoint| hook_view(h)) =~= hook_table()) by {
        assert(r@[0].languages@.map_values(|l: &'static str| l@) =~= seq!["lua"@, "javascript"@]);
        assert(r@[1].languages@.map_values(|l: &'static str| l@) =~= seq!["lua"@]);
        assert(r@[2].languages@.map_values(|l: &'static str| l@) =~= seq!["lua"@, "javascript"@]);
        assert(r@[3].languages@.map_values(|l: &'static str| l@) =~= seq!["lua"@]);
    }
    r
}

/// Whether `hook` is registered and accepts scripts in `language`.
pub open spec fn hook_supports(hook: Seq<char>, language: Seq<char>) -> bool {
    exists|i: int|
        0 <= i < hook_table().len() && (#[trigger] hook_table()[i]).0 == hook && hook_table()[i].1.contains(
            language,
        )
}

pub fn hook_supports_language(hook: &str, language: &str) -> (r: bool)
    ensures
        r == hook_supports(hook@, language@),
{
    let points = hook_points();
    let ghost tab = hook_table();
    let mut i: usize = 0;
    while i < points.len()
        invariant
            i <= points.len(),
            tab == hook_table(),
            points@.map_values(|h: HookPoint| hook_view(h)) == tab,
            forall|j: int|
                0 <= j < i ==> !((#[trigger] tab[j]).0 == hook@ && tab[j].1.contains(language@)),
        decreases points.len() - i,
    {
        let p = &points[i];
        assert(tab[i as int] == hook_view(*p));
        if str_eq(p.name, hook) && member(language, p.languages.as_slice()) {
            proof {
                let k = choose|k: int| 0 <= k < p.languages@.len() && (#[trigger] p.languages@[k])@ == language@;
                assert(tab[i as int].1[k] == language@);
            }
            return true;
        }
        proof {
            if tab[i as int].0 == hook@ && tab[i as int].1.contains(language@) {
                let k = choose|k: int| 0 <= k < tab[i as int].1.len() && tab[i as int].1[k] == language@;
                assert(p.languages@[k]@ == language@);
                assert(words_contain(p.languages@, language@));
            }
        }
        i += 1;
    }
    false
}


/// The outbound hosts of a comma-separated list: each entry trimmed and
/// lower-cased, empty entries dropped, each host once (first occurrence).
pub open spec fn hosts_of(parts: Seq<Seq<char>>) -> Seq<Seq<char>>
    decreases parts.len(),
{
    if parts.len() == 0 {
        Seq::<Seq<char>>::empty()
    } else {
        let prev = hosts_of(parts.drop_last());
        let h = unicode_lowercase(trim(parts.last()));
        if h.len() == 0 || prev.contains(h) {
            prev
        } else {
            prev.push(h)
        }
    }
}

/// The hosts that scripts may call out to, from the configured list (none
/// configured: none allowed).
pub fn outbound_hosts(raw: Option<&str>) -> (r: Vec<String>)
    ensures
        views(r@) == hosts_of(
            split_char(
                match raw {
                    Some(s) => s@,
                    None => Seq::<char>::empty(),
                },
                ',',
            ),
        ),
{
    let text = match raw {
        Some(s) => owned(s),
        None => String::new(),
    };
    let parts = split_char_str(text.as_str(), ',');
    let ghost ps = views(parts@);
    let mut out: Vec<String> = Vec::new();
    let mut i: usize = 0;
    while i < parts.len()
        invariant
            i <= parts.len(),
            ps == views(parts@),
            views(out@) == hosts_of(ps.subrange(0, i as int)),
        decreases parts.len() - i,
    {
        let ghost pre = ps.subrange(0, i as int);
        let ghost nxt = ps.subrange(0, i + 1);
        assert(nxt.drop_last() =~= pre);
        assert(nxt.last() == parts@[i as int]@);
        let t = trim_str(parts[i].as_str());
        let h = to_lowercase(t.as_str());
        let mut seen = false;
        let mut j: usize = 0;
        while j < out.len()
            invariant
                j <= out.len(),
                seen <==> exists|k: int| 0 <= k < j && (#[trigger] out@[k])@ == h@,
            decreases out.len() - j,
        {
            if str_eq(out[j].as_str(), h.as_str()) {
                seen = true;
            }
            j += 1;
        }
        proof {
            if views(out@).contains(h@) {
                let k = choose|k: int| 0 <= k < views(out@).len() && views(out@)[k] == h@;
                assert(out@[k]@ == h@);
            }
            if seen {
                let k = choose|k: int| 0 <= k < out.len() && (#[trigger] out@[k])@ == h@;
                assert(views(out@)[k] == h@);
            }
        }
        if h.unicode_len() > 0 && !seen {
            let ghost before = out@;
            out.push(h);
            assert(views(out@) =~= views(before).push(unicode_lowercase(trim(parts@[i as int]@))));
        }
        i += 1;
    }
    assert(ps.subrange(0, parts.len() as int) =~= ps);
    out
}

} // verus!
