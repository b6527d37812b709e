//! The administrator portal: a user's permission codes and navigation. The
//! navigation is the tree of the user's enabled, non-button menus, from the
//! roots (parent 0), narrowed for a tenant to the modules of its plan.

use vstd::prelude::*;
use vstd::string::*;
use crate::text::{int_decimal, i64_decimal, cat, join, join_strings, views};

verus! {

/// A route of the navigation.
pub struct MenuRouteItemDto {
    /// Always present on the wire (empty for a leaf).
    pub children: Vec<MenuRouteItemDto>,
    pub path: Option<String>,
    pub redirect: Option<String>,
    pub alias: Option<String>,
    pub name: Option<String>,
    pub component: Option<String>,
    /// Route metadata, carried as stored.
    pub meta: Option<serde_json::Value>,
}

pub struct ListRouteResponseDto {
    /// Left out when there are no routes.
    pub items: Option<Vec<MenuRouteItemDto>>,
}

pub struct ListPermissionCodeResponseDto {
    pub codes: Vec<String>,
}

pub struct InitialContextResponseDto {
    pub menus: Option<Vec<MenuRouteItemDto>>,
    pub permissions: Vec<String>,
}

/// A menu as the navigation reads it (a missing parent reads as 0, a root).
pub struct MenuNode {
    pub id: i64,
    pub parent_id: i64,
    pub path: Option<String>,
    pub redirect: Option<String>,
    pub alias: Option<String>,
    pub name: Option<String>,
    pub component: Option<String>,
    pub meta: Option<serde_json::Value>,
    pub module: Option<String>,
}

/// `$1, $2, ..., $n`: the placeholders of an `in (...)` list.
pub open spec fn placeholders(n: nat) -> Seq<Seq<char>> {
    Seq::new(n, |i: int| "$"@ + int_decimal(i + 1))
}

pub fn in_placeholders(n: usize) -> (r: String)
    requires
        n < i64::MAX,
    ensures
        r@ == join(placeholders(n as nat), ", "@),
{
    let mut parts: Vec<String> = Vec::new();
    let mut i: usize = 0;
    while i < n
        invariant
            i <= n,
            n < i64::MAX,
            views(parts@) == placeholders(i as nat),
        decreases n - i,
    {
        let k: i64 = (i + 1) as i64;
        let ghost before = views(parts@);
        let item = cat("$", i64_decimal(k).as_str());
        assert(item@ == "$"@ + int_decimal(i + 1));
        parts.push(item);
        proof {
            assert(views(parts@) =~= before.push(item@));
            assert(placeholders((i + 1) as nat) =~= placeholders(i as nat).push("$"@ + int_decimal(i + 1)));
        }
        i += 1;
    }
    join_strings(&parts, ", ")
}

/// The positions of the root menus (parent 0), in order.
pub open spec fn roots_of(nodes: Seq<MenuNode>) -> Seq<usize>
    decreases nodes.len(),
{
    if nodes.len() == 0 {
        Seq::empty()
    } else if nodes.last().parent_id == 0 {
        roots_of(nodes.drop_last()).push((nodes.len() - 1) as usize)
    } else {
        roots_of(nodes.drop_last())
    }
}

/// The positions of the menus whose parent is `id`, in order.
pub open spec fn children_of(nodes: Seq<MenuNode>, id: i64) -> Seq<usize>
    decreases nodes.len(),
{
    if nodes.len() == 0 {
        Seq::empty()
    } else if nodes.last().parent_id == id {
        children_of(nodes.drop_last(), id).push((nodes.len() - 1) as usize)
    } else {
        children_of(nodes.drop_last(), id)
    }
}

fn positions_with_parent(nodes: &Vec<MenuNode>, id: i64) -> (r: Vec<usize>)
    ensures
        r@ == children_of(nodes@, id),
        forall|k: int| 0 <= k < r.len() ==> r@[k] < nodes.len(),
{
    let mut out: Vec<usize> = Vec::new();
    let mut i: usize = 0;
    while i < nodes.len()
        invariant
            i <= nodes.len(),
            out@ == children_of(nodes@.subrange(0, i as int), id),
            forall|k: int| 0 <= k < out.len() ==> out@[k] < i,
        decreases nodes.len() - i,
    {
        proof {
            assert(nodes@.subrange(0, i + 1).drop_last() =~= nodes@.subrange(0, i as int));
        }
        if nodes[i].parent_id == id {
            out.push(i);
        }
        i += 1;
    }
    assert(nodes@.subrange(0, nodes.len() as int) =~= nodes@);
    out
}

/// The root positions, in order.
pub fn root_positions(nodes: &Vec<MenuNode>) -> (r: Vec<usize>)
    ensures
        r@ == roots_of(nodes@),
        forall|k: int| 0 <= k < r.len() ==> r@[k] < nodes.len(),
{
    let r = positions_with_parent(nodes, 0);
    proof {
        assert(children_of(nodes@, 0) == roots_of(nodes@)) by {
            lemma_roots_children(nodes@);
        }
    }
    r
}

proof fn lemma_roots_children(nodes: Seq<MenuNode>)
    ensures
        children_of(nodes, 0) == roots_of(nodes),
    decreases nodes.len(),
{
    if nodes.len() > 0 {
        lemma_roots_children(nodes.drop_last());
    }
}

pub open spec fn module_allowed(m: Option<String>, allowed: Seq<String>) -> bool {
    match m {
        None => true,
        Some(x) => exists|k: int| 0 <= k < allowed.len() && (#[trigger] allowed[k])@ == x@,
    }
}

/// The roots kept for a tenant: none without a plan (or plan 0) or when the
/// plan allows no module; else those without a module or with an allowed one.
pub open spec fn roots_for_plan(
    nodes: Seq<MenuNode>,
    roots: Seq<usize>,
    plan_id: Option<i64>,
    allowed: Seq<String>,
) -> Seq<usize> {
    if plan_id is None || plan_id == Some(0i64) || allowed.len() == 0 {
        Seq::empty()
    } else {
        roots.filter(|i: usize| module_allowed(nodes[i as int].module, allowed))
    }
}

fn allows(m: &Option<String>, allowed: &Vec<String>) -> (r: bool)
    ensures
        r == module_allowed(*m, allowed@),
{
    match m {
        None => true,
        Some(x) => {
            let mut k: usize = 0;
            while k < allowed.len()
                invariant
                    k <= allowed.len(),
                    *m == Some(*x),
                    forall|j: int| 0 <= j < k ==> (#[trigger] allowed@[j])@ != x@,
                decreases allowed.len() - k,
            {
                if crate::text::str_eq(allowed[k].as_str(), x.as_str()) {
                    assert(allowed@[k as int]@ == x@);
                    return true;
                }
                k += 1;
            }
            false
        },
    }
}

pub fn filter_roots_by_plan(
    nodes: &Vec<MenuNode>,
    roots: &Vec<usize>,
    plan_id: Option<i64>,
    allowed: &Vec<String>,
) -> (r: Vec<usize>)
    requires
        forall|k: int| 0 <= k < roots.len() ==> roots@[k] < nodes.len(),
    ensures
        r@ == roots_for_plan(nodes@, roots@, plan_id, allowed@),
{
    let no_plan = match plan_id {
        None => true,
        Some(p) => p == 0,
    };
    if no_plan || allowed.len() == 0 {
        return Vec::new();
    }
    let mut out: Vec<usize> = Vec::new();
    let mut i: usize = 0;
    while i < roots.len()
        invariant
            i <= roots.len(),
            forall|k: int| 0 <= k < roots.len() ==> roots@[k] < nodes.len(),
            out@ == roots@.subrange(0, i as int).filter(|q: usize| module_allowed(nodes@[q as int].module, allowed@)),
        decreases roots.len() - i,
    {
        proof {
            reveal(Seq::filter);
            assert(roots@.subrange(0, i + 1).drop_last() =~= roots@.subrange(0, i as int));
        }
        if allows(&nodes[roots[i]].module, allowed) {
            out.push(roots[i]);
        }
        i += 1;
    }
    assert(roots@.subrange(0, roots.len() as int) =~= roots@);
    out
}

/// A route of the tree in pre-order: its fields and depth.
pub type RouteEntry = (
    Option<String>,
    Option<String>,
    Option<String>,
    Option<String>,
    Option<String>,
    Option<serde_json::Value>,
    int,
);

pub open spec fn entry_of(n: MenuNode, depth: int) -> RouteEntry {
    (n.path, n.redirect, n.alias, n.name, n.component, n.meta, depth)
}

/// The routes under the menu at position `p`, in pre-order: the menu, then
/// the subtrees of its children in order. A menu met again on the path from
/// the root is left out; with distinct menu ids other than 0 that never
/// happens, and the path is never longer than the menus (the guard on its
/// length only bounds the recursion).
pub open spec fn route_subtree(nodes: Seq<MenuNode>, p: usize, path: Seq<usize>, depth: int) -> Option<
    Seq<RouteEntry>,
>
    decreases nodes.len() - path.len(), 0int,
{
    if path.contains(p) || p >= nodes.len() || path.len() >= nodes.len() {
        None
    } else {
        Some(
            seq![entry_of(nodes[p as int], depth)] + route_subtrees(
                nodes,
                children_of(nodes, nodes[p as int].id),
                path.push(p),
                depth + 1,
            ),
        )
    }
}

pub open spec fn route_subtrees(nodes: Seq<MenuNode>, ps: Seq<usize>, path: Seq<usize>, depth: int) -> Seq<
    RouteEntry,
>
    decreases nodes.len() - path.len(), 1 + ps.len(),
{
    if ps.len() == 0 || path.len() > nodes.len() {
        Seq::empty()
    } else {
        route_subtrees(nodes, ps.drop_last(), path, depth) + match route_subtree(nodes, ps.last(), path, depth) {
            Some(s) => s,
            None => Seq::empty(),
        }
    }
}

/// The routes of a forest in pre-order.
pub open spec fn flat_routes(ts: Seq<MenuRouteItemDto>, depth: int) -> Seq<RouteEntry>
    decreases ts,
{
    if ts.len() == 0 {
        Seq::empty()
    } else {
        let t = ts.last();
        flat_routes(ts.drop_last(), depth) + seq![
            (t.path, t.redirect, t.alias, t.name, t.component, t.meta, depth),
        ] + flat_routes(t.children@, depth + 1)
    }
}

proof fn lemma_flat_route_one(t: MenuRouteItemDto, depth: int)
    ensures
        flat_routes(seq![t], depth) == seq![(t.path, t.redirect, t.alias, t.name, t.component, t.meta, depth)]
            + flat_routes(t.children@, depth + 1),
{
    let s = seq![t];
    assert(s.drop_last() =~= Seq::<MenuRouteItemDto>::empty());
    assert(flat_routes(s.drop_last(), depth) =~= Seq::<RouteEntry>::empty());
}

fn clone_meta(m: &Option<serde_json::Value>) -> (r: Option<serde_json::Value>)
    ensures
        r == *m,
{
    match m {
        Some(v) => Some(v.clone()),
        None => None,
    }
}

proof fn lemma_path_bound(n: nat, path: Seq<usize>)
    requires
        path.no_duplicates(),
        forall|k: int| 0 <= k < path.len() ==> path[k] < n,
    ensures
        path.len() <= n,
{
    let ids = Seq::new(n, |i: int| i as usize);
    assert forall|k: int| 0 <= k < path.len() implies ids.contains(#[trigger] path[k]) by {
        assert(ids[path[k] as int] == path[k]);
    }
    crate::handlers::lemma_chain_bound(ids, path);
}

fn fill(nodes: &Vec<MenuNode>, p: usize, path: &mut Vec<usize>, Ghost(depth): Ghost<int>) -> (r: Option<MenuRouteItemDto>)
    requires
        old(path)@.no_duplicates(),
        forall|k: int| 0 <= k < old(path)@.len() ==> old(path)@[k] < nodes.len(),
        old(path)@.len() <= nodes.len(),
        p < nodes.len(),
    ensures
        final(path)@ == old(path)@,
        match route_subtree(nodes@, p, old(path)@, depth) {
            None => r is None,
            Some(s) => r matches Some(t) && flat_routes(seq![t], depth) == s,
        },
    decreases nodes.len() - old(path)@.len(),
{
    let mut k: usize = 0;
    while k < path.len()
        invariant
            k <= path.len(),
            forall|j: int| 0 <= j < k ==> path@[j] != p,
        decreases path.len() - k,
    {
        if path[k] == p {
            assert(path@.contains(p));
            return None;
        }
        k += 1;
    }
    let ghost path0 = path@;
    proof {
        assert(!path0.contains(p));
        let c2 = path0.push(p);
        assert(c2.no_duplicates());
        lemma_path_bound(nodes.len() as nat, c2);
    }
    let kids = positions_with_parent(nodes, nodes[p].id);
    path.push(p);
    let mut children: Vec<MenuRouteItemDto> = Vec::new();
    let mut i: usize = 0;
    proof {
        assert(kids@.subrange(0, 0) =~= Seq::<usize>::empty());
    }
    while i < kids.len()
        invariant
            i <= kids.len(),
            p < nodes.len(),
            kids@ == children_of(nodes@, nodes@[p as int].id),
            forall|q: int| 0 <= q < kids.len() ==> kids@[q] < nodes.len(),
            path0 == old(path)@,
            path@ == path0.push(p),
            path@.no_duplicates(),
            forall|q: int| 0 <= q < path@.len() ==> path@[q] < nodes.len(),
            path@.len() <= nodes.len(),
            flat_routes(children@, depth + 1) == route_subtrees(
                nodes@,
                kids@.subrange(0, i as int),
                path@,
                depth + 1,
            ),
        decreases kids.len() - i,
    {
        let ghost before = children@;
        proof {
            assert(kids@.subrange(0, i + 1).drop_last() =~= kids@.subrange(0, i as int));
            assert(kids@.subrange(0, i + 1).last() == kids@[i as int]);
        }
        match fill(nodes, kids[i], path, Ghost(depth + 1)) {
            Some(c) => {
                children.push(c);
                proof {
                    assert(children@.drop_last() =~= before);
                    lemma_flat_route_one(c, depth + 1);
                }
            },
            None => {
                proof {
                    assert(flat_routes(children@, depth + 1) + Seq::<RouteEntry>::empty() =~= flat_routes(
                        children@,
                        depth + 1,
                    ));
                }
            },
        }
        i += 1;
    }
    proof {
        assert(kids@.subrange(0, kids.len() as int) =~= kids@);
    }
    path.pop();
    proof {
        assert(path@ =~= path0);
    }
    let n = &nodes[p];
    let t = MenuRouteItemDto {
        children,
        path: n.path.clone(),
        redirect: n.redirect.clone(),
        alias: n.alias.clone(),
        name: n.name.clone(),
        component: n.component.clone(),
        meta: clone_meta(&n.meta),
    };
    proof {
        lemma_flat_route_one(t, depth);
    }
    Some(t)
}

/// The route tree from the given root positions (see `route_subtree`); the
/// children of a route are the menus whose parent is its id, in order.
pub fn build_tree(nodes: &Vec<MenuNode>, roots: &Vec<usize>) -> (r: Vec<MenuRouteItemDto>)
    requires
        forall|k: int| 0 <= k < roots.len() ==> roots@[k] < nodes.len(),
    ensures
        flat_routes(r@, 0) == route_subtrees(nodes@, roots@, Seq::empty(), 0),
{
    let mut out: Vec<MenuRouteItemDto> = Vec::new();
    let mut i: usize = 0;
    proof {
        assert(roots@.subrange(0, 0) =~= Seq::<usize>::empty());
    }
    while i < roots.len()
        invariant
            i <= roots.len(),
            forall|k: int| 0 <= k < roots.len() ==> roots@[k] < nodes.len(),
            flat_routes(out@, 0) == route_subtrees(nodes@, roots@.subrange(0, i as int), Seq::empty(), 0),
        decreases roots.len() - i,
    {
        let ghost before = out@;
        proof {
            assert(roots@.subrange(0, i + 1).drop_last() =~= roots@.subrange(0, i as int));
            assert(roots@.subrange(0, i + 1).last() == roots@[i as int]);
        }
        let mut path: Vec<usize> = Vec::new();
        proof {
            assert(path@ =~= Seq::<usize>::empty());
        }
        match fill(nodes, roots[i], &mut path, Ghost(0)) {
            Some(t) => {
                out.push(t);
                proof {
                    assert(out@.drop_last() =~= before);
                    lemma_flat_route_one(t, 0);
                }
            },
            None => {
                proof {
                    assert(flat_routes(out@, 0) + Seq::<RouteEntry>::empty() =~= flat_routes(out@, 0));
                }
            },
        }
        i += 1;
    }
    proof {
        assert(roots@.subrange(0, roots.len() as int) =~= roots@);
    }
    out
}

/// The navigation as answered: none when there are no routes.
pub fn navigation_items(items: Vec<MenuRouteItemDto>) -> (r: Option<Vec<MenuRouteItemDto>>)
    ensures
        items.len() == 0 ==> r is None,
        items.len() > 0 ==> r == Some(items),
{
    if items.len() == 0 {
        None
    } else {
        Some(items)
    }
}

/// Under a plan that allows some modules, a root menu without a module (a
/// catalog container) is always kept, and a root whose module the plan does
/// not allow is always dropped.
pub proof fn lemma_plan_keeps_module_less_roots(
    nodes: Seq<MenuNode>,
    roots: Seq<usize>,
    plan_id: Option<i64>,
    allowed: Seq<String>,
    k: int,
)
    requires
        plan_id matches Some(p) && p != 0,
        allowed.len() > 0,
        0 <= k < roots.len(),
    ensures
        nodes[roots[k] as int].module is None ==> roots_for_plan(nodes, roots, plan_id, allowed).contains(roots[k]),
        (nodes[roots[k] as int].module matches Some(m) && forall|j: int| 0 <= j < allowed.len() ==> allowed[j]@ != m@)
            ==> !roots_for_plan(nodes, roots, plan_id, allowed).contains(roots[k]),
{
    let pred = |i: usize| module_allowed(nodes[i as int].module, allowed);
    let f = roots.filter(pred);
    assert(roots_for_plan(nodes, roots, plan_id, allowed) == f);
    if nodes[roots[k] as int].module is None {
        roots.lemma_filter_contains(pred, k);
    }
    if f.contains(roots[k]) {
        let i = choose|i: int| 0 <= i < f.len() && f[i] == roots[k];
        roots.lemma_filter_pred(pred, i);
    }
}

/// Without a plan (or with plan 0), or with a plan that allows no module,
/// no root is kept; with one, every root whose module is allowed is kept,
/// and every kept root is a root of the tree.
pub proof fn lemma_plan_filter(
    nodes: Seq<MenuNode>,
    roots: Seq<usize>,
    plan_id: Option<i64>,
    allowed: Seq<String>,
    k: int,
)
    requires
        0 <= k < roots.len(),
    ensures
        plan_id is None || plan_id == Some(0i64) || allowed.len() == 0 ==> roots_for_plan(
            nodes,
            roots,
            plan_id,
            allowed,
        ).len() == 0,
        (plan_id matches Some(p) && p != 0) && allowed.len() > 0 && (nodes[roots[k] as int].module matches Some(
            m,
        ) && exists|j: int| 0 <= j < allowed.len() && allowed[j]@ == m@) ==> roots_for_plan(
            nodes,
            roots,
            plan_id,
            allowed,
        ).contains(roots[k]),
        forall|x: usize| roots_for_plan(nodes, roots, plan_id, allowed).contains(x) ==> roots.contains(x),
{
    let pred = |i: usize| module_allowed(nodes[i as int].module, allowed);
    if (plan_id matches Some(p) && p != 0) && allowed.len() > 0 {
        if nodes[roots[k] as int].module is Some && pred(roots[k]) {
            roots.lemma_filter_contains(pred, k);
        }
        assert forall|x: usize| roots.filter(pred).contains(x) implies roots.contains(x) by {
            roots.lemma_filter_contains_rev(pred, x);
        }
    }
}

} // verus!
