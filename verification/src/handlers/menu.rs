//! Menus: CATALOG/MENU/BUTTON/EMBEDDED/LINK routes with status, module
//! (stored without the `MODULE_` prefix), parent and route metadata (JSON
//! carried through). A sync replaces the whole tree, modules inferred from
//! component paths.

use vstd::prelude::*;
use vstd::string::*;
use crate::error::{AppError, is_validation};
use crate::handlers::{normalize_upper, upper_enum};
use crate::handlers::api::{module_name, module_known, module_from_db};
use crate::text::{ascii_upper, has_prefix, cat, str_eq, starts_with, to_ascii_upper};

verus! {

pub struct MenuDto {
    pub id: i64,
    pub status: Option<String>,
    pub type_: Option<String>,
    pub path: Option<String>,
    pub redirect: Option<String>,
    pub alias: Option<String>,
    pub name: Option<String>,
    pub component: Option<String>,
    pub meta: Option<serde_json::Value>,
    pub module: Option<String>,
    pub parent_id: Option<i64>,
    pub children: Vec<MenuDto>,
    pub created_by: Option<i64>,
    pub updated_by: Option<i64>,
    pub deleted_by: Option<i64>,
    pub created_at: Option<String>,
    pub updated_at: Option<String>,
    pub deleted_at: Option<String>,
}

pub struct MenuData {
    pub status: Option<String>,
    pub type_: Option<String>,
    pub path: Option<String>,
    pub redirect: Option<String>,
    pub alias: Option<String>,
    pub name: Option<String>,
    pub component: Option<String>,
    pub meta: Option<serde_json::Value>,
    pub module: Option<String>,
    pub parent_id: Option<i64>,
    pub children: Option<Vec<MenuData>>,
}

pub struct CreateMenuBody {
    pub data: Option<MenuData>,
}

pub struct UpdateMenuBody {
    pub id: Option<i64>,
    pub data: Option<MenuData>,
    pub allow_missing: Option<bool>,
}

pub struct SyncMenusBody {
    pub items: Option<Vec<MenuData>>,
}

/// A stored menu; the module is stored without its prefix.
pub struct MenuRow {
    pub id: i64,
    pub status: Option<String>,
    pub type_: Option<String>,
    pub path: Option<String>,
    pub redirect: Option<String>,
    pub alias: Option<String>,
    pub name: Option<String>,
    pub component: Option<String>,
    pub meta: Option<serde_json::Value>,
    pub module: Option<String>,
    pub parent_id: Option<i64>,
    pub created_by: Option<i64>,
    pub updated_by: Option<i64>,
    pub deleted_by: Option<i64>,
    pub created_at: Option<String>,
    pub updated_at: Option<String>,
    pub deleted_at: Option<String>,
}

pub fn to_dto(row: &MenuRow) -> (d: MenuDto)
    ensures
        d.id == row.id,
        d.status == row.status,
        d.type_ == row.type_,
        d.path == row.path,
        d.redirect == row.redirect,
        d.alias == row.alias,
        d.name == row.name,
        d.component == row.component,
        d.meta == row.meta,
        match row.module {
            Some(m) => d.module matches Some(x) && x@ == "MODULE_"@ + m@,
            None => d.module is None,
        },
        d.parent_id == row.parent_id,
        d.children@.len() == 0,
        d.created_by == row.created_by,
        d.updated_by == row.updated_by,
        d.deleted_by == row.deleted_by,
        d.created_at == row.created_at,
        d.updated_at == row.updated_at,
        d.deleted_at == row.deleted_at,
{
    MenuDto {
        id: row.id,
        status: row.status.clone(),
        type_: row.type_.clone(),
        path: row.path.clone(),
        redirect: row.redirect.clone(),
        alias: row.alias.clone(),
        name: row.name.clone(),
        component: row.component.clone(),
        meta: match &row.meta {
            Some(m) => Some(m.clone()),
            None => None,
        },
        module: match &row.module {
            Some(m) => Some(module_from_db(m.as_str())),
            None => None,
        },
        parent_id: row.parent_id,
        children: Vec::new(),
        created_by: row.created_by,
        updated_by: row.updated_by,
        deleted_by: row.deleted_by,
        created_at: row.created_at.clone(),
        updated_at: row.updated_at.clone(),
        deleted_at: row.deleted_at.clone(),
    }
}



/// The stored form of a module: none for the unset value (empty or
/// UNSPECIFIED), the name of a known module, else the validation error.
pub open spec fn module_db(v: Seq<char>) -> Result<Option<Seq<char>>, Seq<char>> {
    let n = module_name(v);
    if n.len() == 0 || n == "UNSPECIFIED"@ {
        Ok(None)
    } else if module_known(n) {
        Ok(Some(n))
    } else {
        Err("invalid menu module: "@ + v)
    }
}

pub fn module_to_db(v: &str) -> (r: Result<Option<String>, AppError>)
    ensures
        match module_db(v@) {
            Ok(m) => r matches Ok(x) && view_opt(x) == m,
            Err(m) => r matches Err(e) && is_validation(e, m),
        },
{
    match crate::handlers::api::module_to_db(v) {
        Ok(x) => Ok(x),
        Err(_) => Err(AppError::Validation(cat("invalid menu module: ", v))),
    }
}

pub open spec fn type_ok(u: Seq<char>) -> bool {
    u == "CATALOG"@ || u == "MENU"@ || u == "BUTTON"@ || u == "EMBEDDED"@ || u == "LINK"@
}

pub open spec fn status_ok(u: Seq<char>) -> bool {
    u == "ON"@ || u == "OFF"@
}

pub fn normalize_type(v: &str) -> (r: Result<String, AppError>)
    ensures
        upper_enum(r, v@, |u: Seq<char>| type_ok(u), "invalid menu type: "@),
{
    normalize_upper(v, &["CATALOG", "MENU", "BUTTON", "EMBEDDED", "LINK"], "invalid menu type: ")
}

pub fn normalize_status(v: &str) -> (r: Result<String, AppError>)
    ensures
        upper_enum(r, v@, |u: Seq<char>| status_ok(u), "invalid menu status: "@),
{
    normalize_upper(v, &["ON", "OFF"], "invalid menu status: ")
}

/// The business module of a front-end component, by its path prefix; none
/// for the layout, an empty component or an unknown prefix.
pub open spec fn component_module(c: Seq<char>) -> Option<Seq<char>> {
    if c == "BasicLayout"@ || c.len() == 0 {
        None
    } else if has_prefix(c, "dashboard/"@) {
        Some("DASHBOARD"@)
    } else if has_prefix(c, "app/opm/"@) {
        Some("OPM"@)
    } else if has_prefix(c, "app/system/"@) {
        Some("SYSTEM"@)
    } else if has_prefix(c, "app/dict/"@) {
        Some("DICT"@)
    } else if has_prefix(c, "app/tenant/"@) {
        Some("TENANT"@)
    } else if has_prefix(c, "app/permission/"@) {
        Some("PERMISSION"@)
    } else if has_prefix(c, "app/log/"@) {
        Some("LOG"@)
    } else if has_prefix(c, "app/internal_message/"@) {
        Some("INTERNAL_MESSAGE"@)
    } else if has_prefix(c, "app/file/"@) {
        Some("FILE"@)
    } else if has_prefix(c, "app/task/"@) {
        Some("TASK"@)
    } else {
        None
    }
}

pub open spec fn text_or_empty(o: Option<&str>) -> Seq<char> {
    match o {
        Some(c) => c@,
        None => Seq::<char>::empty(),
    }
}

pub fn component_to_module(component: Option<&str>) -> (r: Option<String>)
    ensures
        view_opt(r) == component_module(text_or_empty(component)),
{
    let c = match component {
        Some(c) => c,
        None => "",
    };
    proof {
        reveal_strlit("");
    }
    let m = if str_eq(c, "BasicLayout") || c.unicode_len() == 0 {
        None
    } else if starts_with(c, "dashboard/") {
        Some("DASHBOARD")
    } else if starts_with(c, "app/opm/") {
        Some("OPM")
    } else if starts_with(c, "app/system/") {
        Some("SYSTEM")
    } else if starts_with(c, "app/dict/") {
        Some("DICT")
    } else if starts_with(c, "app/tenant/") {
        Some("TENANT")
    } else if starts_with(c, "app/permission/") {
        Some("PERMISSION")
    } else if starts_with(c, "app/log/") {
        Some("LOG")
    } else if starts_with(c, "app/internal_message/") {
        Some("INTERNAL_MESSAGE")
    } else if starts_with(c, "app/file/") {
        Some("FILE")
    } else if starts_with(c, "app/task/") {
        Some("TASK")
    } else {
        None
    };
    match m {
        Some(s) => Some(String::from_str(s)),
        None => None,
    }
}

/// The error of validating menu data, if any: a given status, type and
/// module must be known.
pub open spec fn validation_error(data: MenuData) -> Option<Seq<char>> {
    if data.status matches Some(s) && !status_ok(ascii_upper(s@)) {
        Some("invalid menu status: "@ + data.status.unwrap()@)
    } else if data.type_ matches Some(t) && !type_ok(ascii_upper(t@)) {
        Some("invalid menu type: "@ + data.type_.unwrap()@)
    } else if data.module matches Some(m) && module_db(m@) is Err {
        Some(module_db(data.module.unwrap()@)->Err_0)
    } else {
        None
    }
}

pub fn validate_data(data: &MenuData) -> (r: Result<(), AppError>)
    ensures
        match validation_error(*data) {
            Some(m) => r matches Err(e) && is_validation(e, m),
            None => r is Ok,
        },
{
    if let Some(s) = &data.status {
        normalize_status(s.as_str())?;
    }
    if let Some(t) = &data.type_ {
        normalize_type(t.as_str())?;
    }
    if let Some(m) = &data.module {
        module_to_db(m.as_str())?;
    }
    Ok(())
}

pub open spec fn view_opt(o: Option<String>) -> Option<Seq<char>> {
    match o {
        Some(x) => Some(x@),
        None => None,
    }
}

pub open spec fn upper_opt(o: Option<String>) -> Option<Seq<char>> {
    match o {
        Some(x) => Some(ascii_upper(x@)),
        None => None,
    }
}

pub open spec fn upper_or(o: Option<String>, d: Seq<char>) -> Seq<char> {
    match o {
        Some(x) => ascii_upper(x@),
        None => d,
    }
}

/// The stored module of the data (none when absent or unset).
pub open spec fn module_value(data: MenuData) -> Option<Seq<char>> {
    match data.module {
        Some(m) => match module_db(m@) {
            Ok(x) => x,
            Err(_) => None,
        },
        None => None,
    }
}

/// A parent id that names a parent (above zero).
pub open spec fn real_parent(p: Option<i64>) -> Option<i64> {
    match p {
        Some(v) => if v > 0 {
            Some(v)
        } else {
            None
        },
        None => None,
    }
}

/// The normalised fields of a menu that is written.
pub struct MenuFields {
    pub type_: Option<String>,
    pub status: Option<String>,
    pub module: Option<String>,
    pub parent_id: Option<i64>,
}

fn upper_of(o: &Option<String>) -> (r: Option<String>)
    ensures
        view_opt(r) == upper_opt(*o),
{
    match o {
        Some(x) => Some(to_ascii_upper(x.as_str())),
        None => None,
    }
}

fn upper_default(o: &Option<String>, d: &str) -> (r: String)
    ensures
        r@ == upper_or(*o, d@),
{
    match o {
        Some(x) => to_ascii_upper(x.as_str()),
        None => String::from_str(d),
    }
}

/// The fields of an update: the data is valid; absent fields are kept, and
/// so is the parent for a parent id of zero or less.
pub fn update_fields(data: &MenuData) -> (r: Result<MenuFields, AppError>)
    ensures
        match validation_error(*data) {
            Some(m) => r matches Err(e) && is_validation(e, m),
            None => r matches Ok(f) && view_opt(f.type_) == upper_opt(data.type_) && view_opt(
                f.status,
            ) == upper_opt(data.status) && view_opt(f.module) == module_value(*data) && f.parent_id
                == real_parent(data.parent_id),
        },
{
    validate_data(data)?;
    let module = match &data.module {
        Some(m) => match module_to_db(m.as_str()) {
            Ok(x) => x,
            Err(_) => None,
        },
        None => None,
    };
    let parent_id = match data.parent_id {
        Some(v) => if v > 0 {
            Some(v)
        } else {
            None
        },
        None => None,
    };
    Ok(MenuFields { type_: upper_of(&data.type_), status: upper_of(&data.status), module, parent_id })
}

/// The fields of a new menu: the data is valid; type MENU and status ON by
/// default; a parent id of zero or less means none.
pub fn create_fields(data: &MenuData) -> (r: Result<MenuFields, AppError>)
    ensures
        match validation_error(*data) {
            Some(m) => r matches Err(e) && is_validation(e, m),
            None => r matches Ok(f) && view_opt(f.type_) == Some(upper_or(data.type_, "MENU"@))
                && view_opt(f.status) == Some(upper_or(data.status, "ON"@)) && view_opt(f.module)
                == module_value(*data) && f.parent_id == real_parent(data.parent_id),
        },
{
    let f = update_fields(data)?;
    Ok(
        MenuFields {
            type_: Some(upper_default(&data.type_, "MENU")),
            status: Some(upper_default(&data.status, "ON")),
            module: f.module,
            parent_id: f.parent_id,
        },
    )
}

/// The fields of a menu inserted by a sync under `parent`: the data is
/// valid; type MENU and status ON by default; the module always comes from
/// the component (a given module is ignored).
pub fn sync_fields(m: &MenuData, parent: Option<i64>) -> (r: Result<MenuFields, AppError>)
    ensures
        match validation_error(*m) {
            Some(msg) => r matches Err(e) && is_validation(e, msg),
            None => r matches Ok(f) && view_opt(f.type_) == Some(upper_or(m.type_, "MENU"@))
                && view_opt(f.status) == Some(upper_or(m.status, "ON"@)) && view_opt(f.module)
                == component_module(
                match m.component {
                    Some(c) => c@,
                    None => Seq::<char>::empty(),
                },
            ) && f.parent_id == parent,
        },
{
    validate_data(m)?;
    let module = match &m.component {
        Some(c) => component_to_module(Some(c.as_str())),
        None => component_to_module(None),
    };
    Ok(
        MenuFields {
            type_: Some(upper_default(&m.type_, "MENU")),
            status: Some(upper_default(&m.status, "ON")),
            module,
            parent_id: parent,
        },
    )
}


/// The insertions of a tree sync from `items[k..]`, in depth-first
/// pre-order: each as the node's index path in the tree and the position of
/// its parent's insertion (`parent` for these items), numbered from `base`;
/// with the validation error of the first invalid node, where the sync stops.
pub open spec fn sync_walk(
    items: Seq<MenuData>,
    k: int,
    prefix: Seq<usize>,
    parent: Option<int>,
    base: int,
) -> (Seq<(Seq<usize>, Option<int>)>, Option<Seq<char>>)
    decreases items, items.len() - k,
{
    if k < 0 || k >= items.len() {
        (Seq::empty(), None)
    } else {
        let m = items[k];
        let me = prefix.push(k as usize);
        match validation_error(m) {
            Some(e) => (Seq::empty(), Some(e)),
            None => {
                let kids = match m.children {
                    Some(c) => {
                        proof {
                            assert(decreases_to!(items => items[k]));
                            assert(decreases_to!(items[k] => items[k].children));
                            assert(decreases_to!(items[k].children => items[k].children->Some_0));
                            assert(decreases_to!(items[k].children->Some_0 => items[k].children->Some_0@));
                        }
                        sync_walk(c@, 0, me, Some(base), base + 1)
                    },
                    None => (Seq::empty(), None),
                };
                let head = seq![(me, parent)] + kids.0;
                if kids.1 is Some {
                    (head, kids.1)
                } else {
                    let rest = sync_walk(items, k + 1, prefix, parent, base + head.len());
                    (head + rest.0, rest.1)
                }
            },
        }
    }
}

/// One insertion of a menu tree sync.
pub struct SyncStep {
    /// The node's index path in the tree, from the top level.
    pub node: Vec<usize>,
    /// The position in the plan of the parent's insertion; none at the top.
    pub parent: Option<usize>,
}

pub open spec fn step_views(s: Seq<SyncStep>) -> Seq<(Seq<usize>, Option<int>)> {
    s.map_values(|x: SyncStep| (x.node@, match x.parent {
        Some(p) => Some(p as int),
        None => None,
    }))
}

pub open spec fn opt_index(p: Option<usize>) -> Option<int> {
    match p {
        Some(x) => Some(x as int),
        None => None,
    }
}

fn sync_walk_into(
    items: &Vec<MenuData>,
    prefix: &Vec<usize>,
    parent: Option<usize>,
    out: &mut Vec<SyncStep>,
) -> (r: Result<(), AppError>)
    ensures
        ({
            let w = sync_walk(items@, 0, prefix@, opt_index(parent), old(out).len() as int);
            &&& step_views(final(out)@) == step_views(old(out)@) + w.0
            &&& match w.1 {
                Some(m) => r matches Err(e) && is_validation(e, m),
                None => r is Ok,
            }
        }),
    decreases items@,
{
    let ghost pv = opt_index(parent);
    let ghost start = out.len() as int;
    let ghost o0 = step_views(out@);
    let ghost total = sync_walk(items@, 0, prefix@, pv, start);
    let mut k: usize = 0;
    assert(step_views(out@) + total.0 =~= o0 + total.0);
    while k < items.len()
        invariant
            k <= items.len(),
            pv == opt_index(parent),
            start == old(out).len(),
            o0 == step_views(old(out)@),
            total == sync_walk(items@, 0, prefix@, pv, start),
            step_views(out@) + sync_walk(items@, k as int, prefix@, pv, out.len() as int).0 == o0 + total.0,
            sync_walk(items@, k as int, prefix@, pv, out.len() as int).1 == total.1,
        decreases items.len() - k,
    {
        let m = &items[k];
        let ghost base = out.len() as int;
        let ghost here = sync_walk(items@, k as int, prefix@, pv, base);
        match validate_data(m) {
            Err(e) => {
                assert(here.0 =~= Seq::<(Seq<usize>, Option<int>)>::empty());
                assert(step_views(out@) + here.0 =~= step_views(out@));
                return Err(e);
            },
            Ok(()) => {},
        }
        let idx = out.len();
        let mut me = prefix.clone();
        me.push(k);
        let ghost me_v = me@;
        assert(me_v == prefix@.push(k));
        let ghost before = out@;
        out.push(SyncStep { node: me.clone(), parent });
        assert(step_views(out@) =~= step_views(before).push((me_v, pv)));
        match &m.children {
            Some(c) => {
                proof {
                    assert(decreases_to!(items@ => items@[k as int]));
                    assert(decreases_to!(items@[k as int] => items@[k as int].children));
                    assert(decreases_to!(items@[k as int].children => items@[k as int].children->Some_0));
                    assert(decreases_to!(items@[k as int].children->Some_0 => items@[k as int].children->Some_0@));
                }
                let ghost mid = step_views(out@);
                let r = sync_walk_into(c, &me, Some(idx), out);
                let ghost kids = sync_walk(c@, 0, me_v, Some(idx as int), idx as int + 1);
                match r {
                    Err(e) => {
                        assert(here.0 == seq![(me_v, pv)] + kids.0);
                        assert(step_views(out@) =~= step_views(before) + here.0);
                        return Err(e);
                    },
                    Ok(()) => {
                        assert(items@[k as int].children == Some(*c));
                        assert(step_views(out@).len() == out@.len());
                        assert(step_views(before).len() == before.len());
                        assert(out.len() == idx + 1 + kids.0.len());
                        assert(here.0 == seq![(me_v, pv)] + kids.0 + sync_walk(items@, k + 1, prefix@, pv, out.len() as int).0);
                        assert(step_views(out@) =~= step_views(before) + (seq![(me_v, pv)] + kids.0));
                    },
                }
            },
            None => {
                let ghost kids = sync_walk(Seq::<MenuData>::empty(), 0, me_v, Some(idx as int), idx as int + 1);
                assert(kids.0 =~= Seq::<(Seq<usize>, Option<int>)>::empty());
                assert(here.0 == seq![(me_v, pv)] + sync_walk(items@, k + 1, prefix@, pv, out.len() as int).0);
            },
        }
        k += 1;
    }
    assert(sync_walk(items@, k as int, prefix@, pv, out.len() as int).0 =~= Seq::<(Seq<usize>, Option<int>)>::empty());
    Ok(())
}

/// The insertions of syncing a menu tree, in order (see `sync_walk`); the
/// validation error of the first invalid node stops the plan there, and the
/// insertions before it are still made.
pub fn sync_plan(items: &Vec<MenuData>) -> (r: (Vec<SyncStep>, Result<(), AppError>))
    ensures
        ({
            let w = sync_walk(items@, 0, Seq::empty(), None, 0);
            &&& step_views(r.0@) == w.0
            &&& match w.1 {
                Some(m) => r.1 matches Err(e) && is_validation(e, m),
                None => r.1 is Ok,
            }
        }),
{
    let mut out: Vec<SyncStep> = Vec::new();
    let prefix: Vec<usize> = Vec::new();
    let r = sync_walk_into(items, &prefix, None, &mut out);
    assert(step_views(Seq::<SyncStep>::empty()) =~= Seq::<(Seq<usize>, Option<int>)>::empty());
    assert(prefix@ =~= Seq::<usize>::empty());
    (out, r)
}


proof fn lemma_sync_walk_parents(
    items: Seq<MenuData>,
    k: int,
    prefix: Seq<usize>,
    parent: Option<int>,
    base: int,
)
    ensures
        ({
            let w = sync_walk(items, k, prefix, parent, base).0;
            forall|i: int|
                0 <= i < w.len() ==> (#[trigger] w[i]).1 == parent || (w[i].1 matches Some(p) && base <= p
                    < base + i)
        }),
    decreases items, items.len() - k,
{
    if 0 <= k < items.len() && validation_error(items[k]) is None {
        let m = items[k];
        let me = prefix.push(k as usize);
        let kids = match m.children {
            Some(c) => {
                assert(decreases_to!(items => items[k]));
                assert(decreases_to!(items[k] => items[k].children));
                assert(decreases_to!(items[k].children => items[k].children->Some_0));
                assert(decreases_to!(items[k].children->Some_0 => items[k].children->Some_0@));
                lemma_sync_walk_parents(c@, 0, me, Some(base), base + 1);
                sync_walk(c@, 0, me, Some(base), base + 1)
            },
            None => (Seq::empty(), None),
        };
        let head = seq![(me, parent)] + kids.0;
        let w = sync_walk(items, k, prefix, parent, base).0;
        if kids.1 is Some {
            assert(w == head);
            assert forall|i: int| 0 <= i < w.len() implies (#[trigger] w[i]).1 == parent || (w[i].1 matches Some(
                p,
            ) && base <= p < base + i) by {
                if i > 0 {
                    assert(w[i] == kids.0[i - 1]);
                }
            }
        } else {
            let rest = sync_walk(items, k + 1, prefix, parent, base + head.len());
            lemma_sync_walk_parents(items, k + 1, prefix, parent, base + head.len());
            assert(w == head + rest.0);
            assert forall|i: int| 0 <= i < w.len() implies (#[trigger] w[i]).1 == parent || (w[i].1 matches Some(
                p,
            ) && base <= p < base + i) by {
                if 0 < i < head.len() {
                    assert(w[i] == kids.0[i - 1]);
                } else if i >= head.len() {
                    assert(w[i] == rest.0[i - head.len()]);
                }
            }
        }
    }
}

/// In a tree sync, every node is inserted after its parent.
pub proof fn lemma_sync_plan_parents_first(items: Seq<MenuData>)
    ensures
        ({
            let w = sync_walk(items, 0, Seq::empty(), None, 0).0;
            forall|i: int| 0 <= i < w.len() ==> ((#[trigger] w[i]).1 matches Some(p) ==> 0 <= p < i)
        }),
{
    lemma_sync_walk_parents(items, 0, Seq::empty(), None, 0);
}

} // verus!
