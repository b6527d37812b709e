//! Permission groups: a tree of groups (name, module, sort order, status
//! ON/OFF); the checks of their requests, and the tree of a listing, built
//! from parent ids with a guard against parent cycles.

use vstd::prelude::*;
use vstd::string::*;
use crate::error::{AppError, is_validation};
use crate::handlers::{blank, is_blank, normalize_upper, trimmed, trimmed_or_empty, upper_enum, vec_contains};
use crate::text::{ascii_upper, to_ascii_upper};

verus! {

pub struct PermissionGroupDto {
    pub id: i64,
    pub name: Option<String>,
    pub path: Option<String>,
    pub module: Option<String>,
    pub sort_order: Option<i64>,
    /// ON | OFF
    pub status: Option<String>,
    pub description: Option<String>,
    pub parent_id: Option<i64>,
    /// The child groups in the tree (always present on the wire).
    pub children: Vec<PermissionGroupDto>,
    pub created_by: Option<i64>,
    pub updated_by: Option<i64>,
    pub deleted_by: Option<i64>,
    pub created_at: Option<String>,
    pub updated_at: Option<String>,
    pub deleted_at: Option<String>,
}

/// A stored permission group.
pub struct PermissionGroupRow {
    pub id: i64,
    pub name: String,
    pub path: Option<String>,
    pub module: Option<String>,
    pub sort_order: Option<i64>,
    pub status: Option<String>,
    pub description: Option<String>,
    pub parent_id: Option<i64>,
    pub created_by: Option<i64>,
    pub updated_by: Option<i64>,
    pub deleted_by: Option<i64>,
    pub created_at: Option<String>,
    pub updated_at: Option<String>,
    pub deleted_at: Option<String>,
}

pub struct PermissionGroupData {
    pub name: Option<String>,
    pub module: Option<String>,
    pub sort_order: Option<i64>,
    pub status: Option<String>,
    pub description: Option<String>,
    pub parent_id: Option<i64>,
}

pub struct CreatePermissionGroupBody {
    pub data: Option<PermissionGroupData>,
}

pub struct UpdatePermissionGroupBody {
    pub id: Option<i64>,
    pub data: Option<PermissionGroupData>,
    pub allow_missing: Option<bool>,
}

/// Whether a group has the fields of `row`, and no children.
pub open spec fn dto_of_row(d: PermissionGroupDto, row: PermissionGroupRow) -> bool {
    &&& d.id == row.id
    &&& d.name == Some(row.name)
    &&& d.path == row.path
    &&& d.module == row.module
    &&& d.sort_order == row.sort_order
    &&& d.status == row.status
    &&& d.description == row.description
    &&& d.parent_id == row.parent_id
    &&& d.children@.len() == 0
    &&& d.created_by == row.created_by
    &&& d.updated_by == row.updated_by
    &&& d.deleted_by == row.deleted_by
    &&& d.created_at == row.created_at
    &&& d.updated_at == row.updated_at
    &&& d.deleted_at == row.deleted_at
}

pub fn to_dto(row: &PermissionGroupRow) -> (d: PermissionGroupDto)
    ensures
        dto_of_row(d, *row),
{
    PermissionGroupDto {
        id: row.id,
        name: Some(row.name.clone()),
        path: row.path.clone(),
        module: row.module.clone(),
        sort_order: row.sort_order,
        status: row.status.clone(),
        description: row.description.clone(),
        parent_id: row.parent_id,
        children: Vec::new(),
        created_by: row.created_by,
        updated_by: row.updated_by,
        deleted_by: row.deleted_by,
        created_at: row.created_at.clone(),
        updated_at: row.updated_at.clone(),
        deleted_at: row.deleted_at.clone(),
    }
}

pub open spec fn status_ok(u: Seq<char>) -> bool {
    u == "ON"@ || u == "OFF"@
}

pub fn normalize_status(v: &str) -> (r: Result<String, AppError>)
    ensures
        upper_enum(r, v@, |u: Seq<char>| status_ok(u), "invalid permission group status: "@),
{
    normalize_upper(v, &["ON", "OFF"], "invalid permission group status: ")
}

/// The error of validating group data, if any: a name that is not blank is
/// required, and a given status must be known.
pub open spec fn validation_error(data: PermissionGroupData) -> Option<Seq<char>> {
    if blank(data.name) {
        Some("permission group name is required"@)
    } else if data.status matches Some(s) && !status_ok(ascii_upper(s@)) {
        Some("invalid permission group status: "@ + data.status.unwrap()@)
    } else {
        None
    }
}

pub fn validate_data(data: &PermissionGroupData) -> (r: Result<(), AppError>)
    ensures
        match validation_error(*data) {
            Some(m) => r matches Err(e) && is_validation(e, m),
            None => r is Ok,
        },
{
    if is_blank(&data.name) {
        return Err(AppError::Validation(String::from_str("permission group name is required")));
    }
    if let Some(s) = &data.status {
        normalize_status(s.as_str())?;
    }
    Ok(())
}

pub open spec fn view_opt(o: Option<String>) -> Option<Seq<char>> {
    match o {
        Some(x) => Some(x@),
        None => None,
    }
}

pub open spec fn upper_opt(o: Option<String>) -> Option<Seq<char>> {
    match o {
        Some(x) => Some(ascii_upper(x@)),
        None => None,
    }
}

/// What a create or an update of a group writes.
pub struct GroupValues {
    pub name: Option<String>,
    pub status: Option<String>,
    pub sort_order: Option<i64>,
}

/// The values of a new group: the data is valid; the trimmed name; status
/// ON and sort order 0 by default.
pub fn create_values(data: &PermissionGroupData) -> (r: Result<GroupValues, AppError>)
    ensures
        match validation_error(*data) {
            Some(m) => r matches Err(e) && is_validation(e, m),
            None => r matches Ok(v) && view_opt(v.name) == Some(trimmed_or_empty(data.name)) && view_opt(
                v.status,
            ) == Some(
                match data.status {
                    Some(s) => ascii_upper(s@),
                    None => "ON"@,
                },
            ) && v.sort_order == Some(
                match data.sort_order {
                    Some(n) => n,
                    None => 0,
                },
            ),
        },
{
    validate_data(data)?;
    let status = match &data.status {
        Some(s) => to_ascii_upper(s.as_str()),
        None => String::from_str("ON"),
    };
    let sort = match data.sort_order {
        Some(n) => n,
        None => 0,
    };
    Ok(GroupValues { name: Some(trimmed(&data.name)), status: Some(status), sort_order: Some(sort) })
}

/// The values of an update: when a name is given the data is validated and
/// the name trimmed; a given status must be known; absent fields are kept.
pub fn update_values(data: &PermissionGroupData) -> (r: Result<GroupValues, AppError>)
    ensures
        ({
            let err = if data.name is Some && validation_error(*data) is Some {
                validation_error(*data)
            } else if data.status matches Some(s) && !status_ok(ascii_upper(s@)) {
                Some("invalid permission group status: "@ + data.status.unwrap()@)
            } else {
                None
            };
            match err {
                Some(m) => r matches Err(e) && is_validation(e, m),
                None => r matches Ok(v) && view_opt(v.name) == match data.name {
                    Some(n) => Some(trimmed_or_empty(data.name)),
                    None => None,
                } && view_opt(v.status) == upper_opt(data.status) && v.sort_order == data.sort_order,
            }
        }),
{
    let mut name: Option<String> = None;
    if data.name.is_some() {
        validate_data(data)?;
        name = Some(trimmed(&data.name));
    }
    let status = match &data.status {
        Some(s) => Some(normalize_status(s.as_str())?),
        None => None,
    };
    Ok(GroupValues { name, status, sort_order: data.sort_order })
}

// ===================== the tree of a listing =====================

/// The parent id of a group, 0 for none.
pub open spec fn parent_of(d: PermissionGroupDto) -> i64 {
    match d.parent_id {
        Some(p) => p,
        None => 0,
    }
}

/// The index of the last group with id `id`, or -1.
pub open spec fn last_group(ds: Seq<PermissionGroupDto>, id: i64) -> int
    decreases ds.len(),
{
    if ds.len() == 0 {
        -1
    } else if ds.last().id == id {
        ds.len() - 1
    } else {
        last_group(ds.drop_last(), id)
    }
}

/// The ids of the groups whose parent id is `pid`, in order.
pub open spec fn kids_of(ds: Seq<PermissionGroupDto>, pid: i64) -> Seq<i64>
    decreases ds.len(),
{
    if ds.len() == 0 {
        Seq::empty()
    } else if parent_of(ds.last()) == pid {
        kids_of(ds.drop_last(), pid).push(ds.last().id)
    } else {
        kids_of(ds.drop_last(), pid)
    }
}

/// The subtree of group `id` in pre-order, each id with its depth: none for
/// an unknown id or one already on the path from the root (a cycle); else
/// the group and the subtrees of its children in order. (The path holds
/// distinct known ids, so it never grows longer than the groups: the guard
/// on its length only bounds the recursion.)
pub open spec fn subtree(ds: Seq<PermissionGroupDto>, id: i64, path: Seq<i64>, depth: int) -> Option<
    Seq<(i64, int)>,
>
    decreases ds.len() - path.len(), 0int,
{
    if path.contains(id) || last_group(ds, id) < 0 || path.len() >= ds.len() {
        None
    } else {
        Some(seq![(id, depth)] + subtrees(ds, kids_of(ds, id), path.push(id), depth + 1))
    }
}

/// The subtrees of `kids` in order, those that exist.
pub open spec fn subtrees(ds: Seq<PermissionGroupDto>, kids: Seq<i64>, path: Seq<i64>, depth: int) -> Seq<
    (i64, int),
>
    decreases ds.len() - path.len(), 1 + kids.len(),
{
    if kids.len() == 0 || path.len() > ds.len() {
        Seq::empty()
    } else {
        subtrees(ds, kids.drop_last(), path, depth) + match subtree(ds, kids.last(), path, depth) {
            Some(s) => s,
            None => Seq::empty(),
        }
    }
}

/// The forest of a listing: the subtrees of the roots (parent id 0 or none),
/// in order; groups whose parent is not listed are left out with their
/// descendants.
pub open spec fn forest(ds: Seq<PermissionGroupDto>) -> Seq<(i64, int)> {
    subtrees(ds, kids_of(ds, 0), Seq::empty(), 0)
}

/// The groups of a forest in pre-order, each id with its depth.
pub open spec fn flat_forest(ts: Seq<PermissionGroupDto>, depth: int) -> Seq<(i64, int)>
    decreases ts,
{
    if ts.len() == 0 {
        Seq::empty()
    } else {
        flat_forest(ts.drop_last(), depth) + seq![(ts.last().id, depth)] + flat_forest(
            ts.last().children@,
            depth + 1,
        )
    }
}

/// Whether a group has the fields of `src`, children aside.
pub open spec fn same_fields(d: PermissionGroupDto, src: PermissionGroupDto) -> bool {
    &&& d.id == src.id
    &&& d.name == src.name
    &&& d.path == src.path
    &&& d.module == src.module
    &&& d.sort_order == src.sort_order
    &&& d.status == src.status
    &&& d.description == src.description
    &&& d.parent_id == src.parent_id
    &&& d.created_by == src.created_by
    &&& d.updated_by == src.updated_by
    &&& d.deleted_by == src.deleted_by
    &&& d.created_at == src.created_at
    &&& d.updated_at == src.updated_at
    &&& d.deleted_at == src.deleted_at
}

/// Whether every group of a forest has the fields of the listed group with
/// its id.
pub open spec fn fields_from(ts: Seq<PermissionGroupDto>, ds: Seq<PermissionGroupDto>) -> bool
    decreases ts,
{
    ts.len() == 0 || {
        &&& fields_from(ts.drop_last(), ds)
        &&& last_group(ds, ts.last().id) >= 0
        &&& same_fields(ts.last(), ds[last_group(ds, ts.last().id)])
        &&& fields_from(ts.last().children@, ds)
    }
}

proof fn lemma_last_group(ds: Seq<PermissionGroupDto>, id: i64)
    ensures
        -1 <= last_group(ds, id) < ds.len(),
        last_group(ds, id) >= 0 ==> ds[last_group(ds, id)].id == id,
        last_group(ds, id) < 0 ==> forall|k: int| 0 <= k < ds.len() ==> ds[k].id != id,
        last_group(ds, id) >= 0 ==> forall|k: int| last_group(ds, id) < k < ds.len() ==> ds[k].id != id,
    decreases ds.len(),
{
    if ds.len() > 0 {
        let d = ds.drop_last();
        lemma_last_group(d, id);
        assert forall|k: int| 0 <= k < d.len() implies d[k] == ds[k] by {}
    }
}

fn find_last_group(ds: &Vec<PermissionGroupDto>, id: i64) -> (r: Option<usize>)
    ensures
        match r {
            Some(k) => k < ds.len() && k == last_group(ds@, id),
            None => last_group(ds@, id) < 0,
        },
{
    proof {
        lemma_last_group(ds@, id);
    }
    let mut i: usize = ds.len();
    while i > 0
        invariant
            i <= ds.len(),
            forall|k: int| i <= k < ds.len() ==> ds@[k].id != id,
        decreases i,
    {
        if ds[i - 1].id == id {
            proof {
                lemma_last_group(ds@, id);
                let g = last_group(ds@, id);
                if g < 0 {
                    assert(ds@[i - 1].id != id);
                } else if g > i - 1 {
                    assert(ds@[g].id != id);
                } else if g < i - 1 {
                    assert(ds@[i - 1].id != id);
                }
            }
            return Some(i - 1);
        }
        i -= 1;
    }
    None
}

fn kid_ids(ds: &Vec<PermissionGroupDto>, pid: i64) -> (r: Vec<i64>)
    ensures
        r@ == kids_of(ds@, pid),
{
    let mut out: Vec<i64> = Vec::new();
    let mut i: usize = 0;
    while i < ds.len()
        invariant
            i <= ds.len(),
            out@ == kids_of(ds@.subrange(0, i as int), pid),
        decreases ds.len() - i,
    {
        proof {
            assert(ds@.subrange(0, i + 1).drop_last() =~= ds@.subrange(0, i as int));
        }
        let p = match ds[i].parent_id {
            Some(p) => p,
            None => 0,
        };
        if p == pid {
            out.push(ds[i].id);
        }
        i += 1;
    }
    assert(ds@.subrange(0, ds.len() as int) =~= ds@);
    out
}

fn copy_fields(src: &PermissionGroupDto, children: Vec<PermissionGroupDto>) -> (r: PermissionGroupDto)
    ensures
        same_fields(r, *src),
        r.children == children,
{
    PermissionGroupDto {
        id: src.id,
        name: src.name.clone(),
        path: src.path.clone(),
        module: src.module.clone(),
        sort_order: src.sort_order,
        status: src.status.clone(),
        description: src.description.clone(),
        parent_id: src.parent_id,
        children,
        created_by: src.created_by,
        updated_by: src.updated_by,
        deleted_by: src.deleted_by,
        created_at: src.created_at.clone(),
        updated_at: src.updated_at.clone(),
        deleted_at: src.deleted_at.clone(),
    }
}

proof fn lemma_flat_one(t: PermissionGroupDto, depth: int)
    ensures
        flat_forest(seq![t], depth) == seq![(t.id, depth)] + flat_forest(t.children@, depth + 1),
{
    let s = seq![t];
    assert(s.drop_last() =~= Seq::<PermissionGroupDto>::empty());
    assert(flat_forest(s.drop_last(), depth) =~= Seq::<(i64, int)>::empty());
    assert(Seq::<(i64, int)>::empty() + seq![(t.id, depth)] =~= seq![(t.id, depth)]);
}

fn assemble(ds: &Vec<PermissionGroupDto>, id: i64, path: &mut Vec<i64>, Ghost(depth): Ghost<int>) -> (r: Option<PermissionGroupDto>)
    requires
        old(path)@.no_duplicates(),
        forall|k: int| 0 <= k < old(path)@.len() ==> last_group(ds@, #[trigger] old(path)@[k]) >= 0,
        old(path)@.len() <= ds.len(),
    ensures
        final(path)@ == old(path)@,
        match subtree(ds@, id, old(path)@, depth) {
            None => r is None,
            Some(s) => r matches Some(t) && flat_forest(seq![t], depth) == s && fields_from(seq![t], ds@),
        },
    decreases ds.len() - old(path)@.len(),
{
    if vec_contains(path, id) {
        return None;
    }
    let k = match find_last_group(ds, id) {
        Some(k) => k,
        None => {
            return None;
        },
    };
    proof {
        lemma_last_group(ds@, id);
        let ids = ds@.map_values(|d: PermissionGroupDto| d.id);
        let c2 = path@.push(id);
        assert forall|j: int| 0 <= j < c2.len() implies ids.contains(#[trigger] c2[j]) by {
            let x = c2[j];
            lemma_last_group(ds@, x);
            let q = last_group(ds@, x);
            assert(ids[q] == x);
        }
        assert(c2.no_duplicates());
        crate::handlers::lemma_chain_bound(ids, c2);
    }
    let kids = kid_ids(ds, id);
    let ghost path0 = path@;
    path.push(id);
    let mut children: Vec<PermissionGroupDto> = Vec::new();
    let mut i: usize = 0;
    proof {
        assert(kids@.subrange(0, 0) =~= Seq::<i64>::empty());
    }
    while i < kids.len()
        invariant
            i <= kids.len(),
            kids@ == kids_of(ds@, id),
            path0 == old(path)@,
            path@ == path0.push(id),
            path@.no_duplicates(),
            forall|q: int| 0 <= q < path@.len() ==> last_group(ds@, #[trigger] path@[q]) >= 0,
            path@.len() <= ds.len(),
            flat_forest(children@, depth + 1) == subtrees(ds@, kids@.subrange(0, i as int), path@, depth + 1),
            fields_from(children@, ds@),
        decreases kids.len() - i,
    {
        let ghost before = children@;
        proof {
            assert(kids@.subrange(0, i + 1).drop_last() =~= kids@.subrange(0, i as int));
            assert(kids@.subrange(0, i + 1).last() == kids@[i as int]);
        }
        match assemble(ds, kids[i], path, Ghost(depth + 1)) {
            Some(c) => {
                children.push(c);
                proof {
                    assert(children@.drop_last() =~= before);
                    lemma_flat_one(c, depth + 1);
                    assert(flat_forest(children@, depth + 1) =~= flat_forest(before, depth + 1) + flat_forest(
                        seq![c],
                        depth + 1,
                    ));
                    assert(seq![c].drop_last() =~= Seq::<PermissionGroupDto>::empty());
                }
            },
            None => {
                proof {
                    assert(Seq::<(i64, int)>::empty() + flat_forest(children@, depth + 1) =~= flat_forest(children@, depth + 1));
                    assert(flat_forest(children@, depth + 1) + Seq::<(i64, int)>::empty() =~= flat_forest(children@, depth + 1));
                }
            },
        }
        i += 1;
    }
    proof {
        assert(kids@.subrange(0, kids.len() as int) =~= kids@);
    }
    path.pop();
    proof {
        assert(path@ =~= path0);
    }
    let t = copy_fields(&ds[k], children);
    proof {
        lemma_flat_one(t, depth);
        assert(seq![t].drop_last() =~= Seq::<PermissionGroupDto>::empty());
        assert(seq![t].last() == t);
        assert(!path0.contains(id));
        assert(last_group(ds@, id) == k);
        assert(path0.len() < ds.len());
        assert(subtree(ds@, id, path0, depth) == Some(
            seq![(id, depth)] + subtrees(ds@, kids@, path0.push(id), depth + 1),
        ));
        assert(flat_forest(seq![t], depth) == seq![(id, depth)] + flat_forest(t.children@, depth + 1));
        assert(fields_from(Seq::<PermissionGroupDto>::empty(), ds@));
        assert(fields_from(t.children@, ds@));
        assert(same_fields(t, ds@[k as int]));
        assert(fields_from(seq![t], ds@));
    }
    Some(t)
}

fn tree_of_dtos(dtos: &Vec<PermissionGroupDto>) -> (r: Vec<PermissionGroupDto>)
    requires
        forall|k: int| 0 <= k < dtos.len() ==> (#[trigger] dtos@[k]).children@.len() == 0,
    ensures
        flat_forest(r@, 0) == forest(dtos@),
        fields_from(r@, dtos@),
{
    let roots = kid_ids(dtos, 0);
    let mut out: Vec<PermissionGroupDto> = Vec::new();
    let mut i: usize = 0;
    proof {
        assert(roots@.subrange(0, 0) =~= Seq::<i64>::empty());
    }
    while i < roots.len()
        invariant
            i <= roots.len(),
            roots@ == kids_of(dtos@, 0),
            flat_forest(out@, 0) == subtrees(dtos@, roots@.subrange(0, i as int), Seq::empty(), 0),
            fields_from(out@, dtos@),
        decreases roots.len() - i,
    {
        let ghost before = out@;
        proof {
            assert(roots@.subrange(0, i + 1).drop_last() =~= roots@.subrange(0, i as int));
            assert(roots@.subrange(0, i + 1).last() == roots@[i as int]);
        }
        let mut path: Vec<i64> = Vec::new();
        proof {
            assert(path@ =~= Seq::<i64>::empty());
        }
        match assemble(dtos, roots[i], &mut path, Ghost(0)) {
            Some(t) => {
                out.push(t);
                proof {
                    assert(out@.drop_last() =~= before);
                    lemma_flat_one(t, 0);
                }
            },
            None => {
                proof {
                    assert(flat_forest(out@, 0) + Seq::<(i64, int)>::empty() =~= flat_forest(out@, 0));
                }
            },
        }
        i += 1;
    }
    proof {
        assert(roots@.subrange(0, roots.len() as int) =~= roots@);
    }
    out
}

/// The tree of a listing of stored groups (see `forest`, over the groups
/// as `to_dto` gives them): the root groups with their children nested,
/// each group with its row's fields.
pub fn build_tree(rows: &Vec<PermissionGroupRow>) -> (r: Vec<PermissionGroupDto>)
    ensures
        exists|ds: Seq<PermissionGroupDto>|
            {
                &&& ds.len() == rows.len()
                &&& forall|k: int| 0 <= k < rows.len() ==> dto_of_row(#[trigger] ds[k], rows@[k])
                &&& flat_forest(r@, 0) == forest(ds)
                &&& fields_from(r@, ds)
            },
{
    let mut dtos: Vec<PermissionGroupDto> = Vec::new();
    let mut i: usize = 0;
    while i < rows.len()
        invariant
            i <= rows.len(),
            dtos.len() == i,
            forall|k: int| 0 <= k < i ==> dto_of_row(#[trigger] dtos@[k], rows@[k]),
        decreases rows.len() - i,
    {
        dtos.push(to_dto(&rows[i]));
        i += 1;
    }
    let r = tree_of_dtos(&dtos);
    proof {
        assert(forall|k: int| 0 <= k < rows.len() ==> dto_of_row(#[trigger] dtos@[k], rows@[k]));
    }
    r
}

} // verus!
