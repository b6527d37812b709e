//! Permissions: CRUD checks, and the rebuilding of the business permissions
//! from the enabled menus and APIs (menu path and API route to permission
//! code, grouping by module).

use std::collections::HashMap;
use vstd::prelude::*;
use vstd::string::*;
use crate::error::{AppError, is_validation};
use crate::handlers::{blank, trimmed_or_empty, upper_enum, normalize_upper, vec_contains};
use crate::text::{
    ascii_upper, trim, trim_char, has_prefix, has_suffix, has_infix, split_char, join, views,
    trim_str, trim_char_str, starts_with, ends_with, contains, contains_char, split_char_str,
    join_strings, chars_of, slice_string, cat, cat3, str_eq, to_ascii_upper, eq_ignore_ascii_case,
    ascii_lower, unicode_lowercase, unicode_uppercase, to_lowercase, to_uppercase, parse_i64,
    parse_i64_spec, is_digit, char_is_digit, char_string,
};

verus! {

pub struct PermissionDto {
    pub id: i64,
    pub name: Option<String>,
    pub code: Option<String>,
    pub description: Option<String>,
    /// ON | OFF
    pub status: Option<String>,
    pub group_id: Option<i64>,
    pub group_name: Option<String>,
    /// Always present on the wire (empty when none).
    pub menu_ids: Vec<i64>,
    pub api_ids: Vec<i64>,
    pub created_by: Option<i64>,
    pub updated_by: Option<i64>,
    pub deleted_by: Option<i64>,
    pub created_at: Option<String>,
    pub updated_at: Option<String>,
    pub deleted_at: Option<String>,
}

/// A stored permission, with the name of its group.
pub struct PermissionRow {
    pub id: i64,
    pub name: Option<String>,
    pub code: Option<String>,
    pub description: Option<String>,
    pub status: Option<String>,
    pub group_id: Option<i64>,
    pub group_name: Option<String>,
    pub created_by: Option<i64>,
    pub updated_by: Option<i64>,
    pub deleted_by: Option<i64>,
    pub created_at: Option<String>,
    pub updated_at: Option<String>,
    pub deleted_at: Option<String>,
}

pub struct PermissionData {
    pub name: Option<String>,
    pub code: Option<String>,
    pub description: Option<String>,
    pub status: Option<String>,
    pub group_id: Option<i64>,
    pub menu_ids: Option<Vec<i64>>,
    pub api_ids: Option<Vec<i64>>,
}

pub struct CreatePermissionBody {
    pub data: Option<PermissionData>,
}

pub struct UpdatePermissionBody {
    pub id: Option<i64>,
    pub data: Option<PermissionData>,
    pub allow_missing: Option<bool>,
}

/// The ids listed for `id` in `m`, or none.
pub open spec fn ids_for(m: Map<i64, Vec<i64>>, id: i64) -> Seq<i64> {
    if m.contains_key(id) {
        m[id]@
    } else {
        Seq::<i64>::empty()
    }
}

fn ids_of(m: &HashMap<i64, Vec<i64>>, id: i64) -> (r: Vec<i64>)
    ensures
        r@ == ids_for(m@, id),
{
    proof {
        broadcast use vstd::std_specs::hash::group_hash_axioms;
    }
    match m.get(&id) {
        Some(v) => v.clone(),
        None => Vec::new(),
    }
}

/// A permission with the menu and API ids bound to it.
pub fn to_dto(row: &PermissionRow, menu_ids: &HashMap<i64, Vec<i64>>, api_ids: &HashMap<i64, Vec<i64>>) -> (d: PermissionDto)
    ensures
        d.id == row.id,
        d.name == row.name,
        d.code == row.code,
        d.description == row.description,
        d.status == row.status,
        d.group_id == row.group_id,
        d.group_name == row.group_name,
        d.menu_ids@ == ids_for(menu_ids@, row.id),
        d.api_ids@ == ids_for(api_ids@, row.id),
        d.created_by == row.created_by,
        d.updated_by == row.updated_by,
        d.deleted_by == row.deleted_by,
        d.created_at == row.created_at,
        d.updated_at == row.updated_at,
        d.deleted_at == row.deleted_at,
{
    PermissionDto {
        id: row.id,
        name: row.name.clone(),
        code: row.code.clone(),
        description: row.description.clone(),
        status: row.status.clone(),
        group_id: row.group_id,
        group_name: row.group_name.clone(),
        menu_ids: ids_of(menu_ids, row.id),
        api_ids: ids_of(api_ids, row.id),
        created_by: row.created_by,
        updated_by: row.updated_by,
        deleted_by: row.deleted_by,
        created_at: row.created_at.clone(),
        updated_at: row.updated_at.clone(),
        deleted_at: row.deleted_at.clone(),
    }
}

pub open spec fn status_ok(u: Seq<char>) -> bool {
    u == "ON"@ || u == "OFF"@
}

pub fn normalize_status(v: &str) -> (r: Result<String, AppError>)
    ensures
        upper_enum(r, v@, |u: Seq<char>| status_ok(u), "invalid permission status: "@),
{
    normalize_upper(v, &["ON", "OFF"], "invalid permission status: ")
}

/// The error of validating permission data, if any: a name and a code are
/// required (not blank), and a given status must be known.
pub open spec fn validation_error(data: PermissionData) -> Option<Seq<char>> {
    if blank(data.name) {
        Some("permission name is required"@)
    } else if blank(data.code) {
        Some("permission code is required"@)
    } else if data.status matches Some(s) && !status_ok(ascii_upper(s@)) {
        Some("invalid permission status: "@ + data.status.unwrap()@)
    } else {
        None
    }
}

pub fn validate_data(data: &PermissionData) -> (r: Result<(), AppError>)
    ensures
        match validation_error(*data) {
            Some(m) => r matches Err(e) && is_validation(e, m),
            None => r is Ok,
        },
{
    if crate::handlers::is_blank(&data.name) {
        return Err(AppError::Validation(String::from_str("permission name is required")));
    }
    if crate::handlers::is_blank(&data.code) {
        return Err(AppError::Validation(String::from_str("permission code is required")));
    }
    if let Some(s) = &data.status {
        normalize_status(s.as_str())?;
    }
    Ok(())
}

/// The status of a new permission: the normalised one, else ON.
pub open spec fn status_or_on(data: PermissionData) -> Seq<char> {
    match data.status {
        Some(s) => ascii_upper(s@),
        None => "ON"@,
    }
}

/// The code and status of a new permission, once the data is valid: the
/// trimmed code and the status (ON by default).
pub fn create_values(data: &PermissionData) -> (r: Result<(String, String), AppError>)
    ensures
        match validation_error(*data) {
            Some(m) => r matches Err(e) && is_validation(e, m),
            None => r matches Ok((c, s)) && c@ == trimmed_or_empty(data.code) && s@ == status_or_on(
                *data,
            ),
        },
{
    validate_data(data)?;
    let code = crate::handlers::trimmed(&data.code);
    let status = match &data.status {
        Some(s) => normalize_status(s.as_str())?,
        None => String::from_str("ON"),
    };
    Ok((code, status))
}

/// What an update of a permission writes (absent fields are kept).
pub struct PermissionChanges {
    /// The trimmed name, when given and not blank.
    pub name: Option<String>,
    /// The trimmed code, when given and not blank.
    pub code: Option<String>,
    /// The normalised status, when given.
    pub status: Option<String>,
}

/// The trimmed value when it is given and not blank.
pub open spec fn nonblank_trimmed(o: Option<String>) -> Option<Seq<char>> {
    match o {
        Some(s) => if trim(s@).len() > 0 {
            Some(trim(s@))
        } else {
            None
        },
        None => None,
    }
}

pub open spec fn view_opt(o: Option<String>) -> Option<Seq<char>> {
    match o {
        Some(x) => Some(x@),
        None => None,
    }
}

/// The error of an update's checks, if any: the data is validated when a
/// name or a code is given, and a given status must be known.
pub open spec fn update_error(data: PermissionData) -> Option<Seq<char>> {
    if (data.name is Some || data.code is Some) && validation_error(data) is Some {
        validation_error(data)
    } else if data.status matches Some(s) && !status_ok(ascii_upper(s@)) {
        Some("invalid permission status: "@ + data.status.unwrap()@)
    } else {
        None
    }
}

fn nonblank(o: &Option<String>) -> (r: Option<String>)
    ensures
        view_opt(r) == nonblank_trimmed(*o),
{
    match o {
        Some(s) => {
            let t = trim_str(s.as_str());
            if t.unicode_len() > 0 {
                Some(t)
            } else {
                None
            }
        },
        None => None,
    }
}

/// The changes of an update of a permission that exists.
pub fn update_changes(data: &PermissionData) -> (r: Result<PermissionChanges, AppError>)
    ensures
        match update_error(*data) {
            Some(m) => r matches Err(e) && is_validation(e, m),
            None => r matches Ok(c) && view_opt(c.name) == nonblank_trimmed(data.name) && view_opt(
                c.code,
            ) == nonblank_trimmed(data.code) && view_opt(c.status) == match data.status {
                Some(s) => Some(ascii_upper(s@)),
                None => None,
            },
        },
{
    if data.name.is_some() || data.code.is_some() {
        validate_data(data)?;
    }
    let status = match &data.status {
        Some(s) => Some(normalize_status(s.as_str())?),
        None => None,
    };
    Ok(PermissionChanges { name: nonblank(&data.name), code: nonblank(&data.code), status })
}

/// The permission a read addresses: by code when a code that is not blank is
/// given, else by id.
pub fn lookup_code(code: Option<&str>) -> (r: Option<String>)
    ensures
        match code {
            Some(c) => if trim(c@).len() > 0 {
                r matches Some(x) && x@ == c@
            } else {
                r is None
            },
            None => r is None,
        },
{
    match code {
        Some(c) => {
            let t = trim_str(c);
            if t.unicode_len() > 0 {
                Some(String::from_str(c))
            } else {
                None
            }
        },
        None => None,
    }
}

/// What a delete removes.
pub enum PermissionDeleteTarget {
    /// The permission with this code.
    Code(String),
    /// Every permission of this group.
    Group(i64),
    /// The permission with the path's id.
    Id,
}

/// The target of a delete: a code that is not blank first, then a group id
/// that parses as an integer, else the path's id.
pub fn delete_target(code: Option<&str>, group_id: Option<&str>) -> (r: PermissionDeleteTarget)
    ensures
        match code {
            Some(c) if trim(c@).len() > 0 => r matches PermissionDeleteTarget::Code(x) && x@ == c@,
            _ => match group_id {
                Some(g) if parse_i64_spec(g@) is Some => r == PermissionDeleteTarget::Group(
                    parse_i64_spec(g@).unwrap(),
                ),
                _ => r is Id,
            },
        },
{
    if let Some(c) = lookup_code(code) {
        return PermissionDeleteTarget::Code(c);
    }
    match group_id {
        Some(g) => match parse_i64(g) {
            Some(n) => PermissionDeleteTarget::Group(n),
            None => PermissionDeleteTarget::Id,
        },
        None => PermissionDeleteTarget::Id,
    }
}

// ===================== permission codes =====================

/// The action of a button, by the first keyword group that the lower-cased,
/// trimmed title contains: create, edit, delete, import, export, else act.
/// (A title word equal to a keyword or starting with one is itself a part of
/// the title, so the check comes down to containment.)
pub open spec fn button_action_spec(title: Seq<char>) -> Seq<char> {
    let t = unicode_lowercase(trim(title));
    if contains_any(t, add_keys()) {
        "create"@
    } else if contains_any(t, edit_keys()) {
        "edit"@
    } else if contains_any(t, delete_keys()) {
        "delete"@
    } else if contains_any(t, import_keys()) {
        "import"@
    } else if contains_any(t, export_keys()) {
        "export"@
    } else {
        "act"@
    }
}

pub open spec fn contains_any(t: Seq<char>, keys: Seq<Seq<char>>) -> bool {
    exists|i: int| 0 <= i < keys.len() && has_infix(t, #[trigger] keys[i])
}

pub open spec fn add_keys() -> Seq<Seq<char>> {
    seq!["add"@, "addto"@, "add+"@, "create"@, "new"@, "plus"@, "append"@, "新增"@, "添加"@, "创建"@]
}

pub open spec fn edit_keys() -> Seq<Seq<char>> {
    seq!["edit"@, "update"@, "modify"@, "save"@, "patch"@, "保存"@, "修改"@, "更新"@, "编辑"@]
}

pub open spec fn delete_keys() -> Seq<Seq<char>> {
    seq![
        "delete"@, "del"@, "remove"@, "destroy"@, "drop"@, "discard"@, "trash"@, "删除"@, "移除"@,
        "弃用"@, "清除"@,
    ]
}

pub open spec fn import_keys() -> Seq<Seq<char>> {
    seq!["import"@, "importcsv"@, "importexcel"@, "导入"@, "导入为"@]
}

pub open spec fn export_keys() -> Seq<Seq<char>> {
    seq!["export"@, "download"@, "exportcsv"@, "exportexcel"@, "导出"@, "下载"@, "导出为"@]
}

fn contains_any_exec(t: &str, keys: &[&str]) -> (r: bool)
    ensures
        r == contains_any(t@, keys@.map_values(|k: &str| k@)),
{
    let ghost ks = keys@.map_values(|k: &str| k@);
    let mut i: usize = 0;
    while i < keys.len()
        invariant
            i <= keys.len(),
            ks == keys@.map_values(|k: &str| k@),
            forall|j: int| 0 <= j < i ==> !has_infix(t@, #[trigger] ks[j]),
        decreases keys.len() - i,
    {
        if contains(t, keys[i]) {
            assert(has_infix(t@, ks[i as int]));
            return true;
        }
        i += 1;
    }
    false
}

pub fn button_action(title: &str) -> (r: String)
    ensures
        r@ == button_action_spec(title@),
{
    let t = to_lowercase(trim_str(title).as_str());
    let ts = t.as_str();
    let add: [&str; 10] = ["add", "addto", "add+", "create", "new", "plus", "append", "新增", "添加", "创建"];
    let edit: [&str; 9] = ["edit", "update", "modify", "save", "patch", "保存", "修改", "更新", "编辑"];
    let delete: [&str; 11] = [
        "delete", "del", "remove", "destroy", "drop", "discard", "trash", "删除", "移除", "弃用", "清除",
    ];
    let import: [&str; 5] = ["import", "importcsv", "importexcel", "导入", "导入为"];
    let export: [&str; 7] = ["export", "download", "exportcsv", "exportexcel", "导出", "下载", "导出为"];
    proof {
        assert(add@.map_values(|k: &str| k@) =~= add_keys());
        assert(edit@.map_values(|k: &str| k@) =~= edit_keys());
        assert(delete@.map_values(|k: &str| k@) =~= delete_keys());
        assert(import@.map_values(|k: &str| k@) =~= import_keys());
        assert(export@.map_values(|k: &str| k@) =~= export_keys());
    }
    if contains_any_exec(ts, &add) {
        String::from_str("create")
    } else if contains_any_exec(ts, &edit) {
        String::from_str("edit")
    } else if contains_any_exec(ts, &delete) {
        String::from_str("delete")
    } else if contains_any_exec(ts, &import) {
        String::from_str("import")
    } else if contains_any_exec(ts, &export) {
        String::from_str("export")
    } else {
        String::from_str("act")
    }
}

/// The action suffix of a menu type.
pub open spec fn menu_action_spec(title: Seq<char>, mtype: Seq<char>) -> Seq<char> {
    if mtype == "CATALOG"@ {
        "dir"@
    } else if mtype == "MENU"@ || mtype == "EMBEDDED"@ {
        "view"@
    } else if mtype == "LINK"@ {
        "jump"@
    } else if mtype == "BUTTON"@ {
        button_action_spec(title)
    } else {
        Seq::<char>::empty()
    }
}

pub fn menu_type_to_action(title: &str, mtype: &str) -> (r: String)
    ensures
        r@ == menu_action_spec(title@, mtype@),
{
    if str_eq(mtype, "CATALOG") {
        String::from_str("dir")
    } else if str_eq(mtype, "MENU") || str_eq(mtype, "EMBEDDED") {
        String::from_str("view")
    } else if str_eq(mtype, "LINK") {
        String::from_str("jump")
    } else if str_eq(mtype, "BUTTON") {
        button_action(title)
    } else {
        String::new()
    }
}

/// A common English singular: `ies` to `y`; drop the `es` of `ses`, `xes`,
/// `zes`, `ches`, `shes`; drop a final `s` that is not part of `ss`.
pub open spec fn singular(s: Seq<char>) -> Seq<char> {
    if s.len() == 0 {
        s
    } else if has_suffix(s, "ies"@) && s.len() > 3 {
        s.subrange(0, s.len() - 3) + "y"@
    } else if has_suffix(s, "ses"@) || has_suffix(s, "xes"@) || has_suffix(s, "zes"@) || has_suffix(
        s,
        "ches"@,
    ) || has_suffix(s, "shes"@) {
        s.subrange(0, s.len() - 2)
    } else if has_suffix(s, "s"@) && !has_suffix(s, "ss"@) && s.len() > 1 {
        s.subrange(0, s.len() - 1)
    } else {
        s
    }
}

pub fn singularize(s: &str) -> (r: String)
    ensures
        r@ == singular(s@),
{
    proof {
        reveal_strlit("ies");
        reveal_strlit("ses");
        reveal_strlit("xes");
        reveal_strlit("zes");
        reveal_strlit("ches");
        reveal_strlit("shes");
        reveal_strlit("s");
        reveal_strlit("ss");
    }
    let v = chars_of(s);
    let n = v.len();
    if n == 0 {
        return String::new();
    }
    if ends_with(s, "ies") && n > 3 {
        return cat(slice_string(&v, 0, n - 3).as_str(), "y");
    }
    if ends_with(s, "ses") || ends_with(s, "xes") || ends_with(s, "zes") || ends_with(s, "ches")
        || ends_with(s, "shes") {
        return slice_string(&v, 0, n - 2);
    }
    if ends_with(s, "s") && !ends_with(s, "ss") && n > 1 {
        return slice_string(&v, 0, n - 1);
    }
    String::from_str(s)
}

/// The segments of a menu path that are not blank, trimmed.
pub open spec fn nonblank_segments(parts: Seq<Seq<char>>) -> Seq<Seq<char>>
    decreases parts.len(),
{
    if parts.len() == 0 {
        parts
    } else {
        let r = nonblank_segments(parts.drop_last());
        if trim(parts.last()).len() > 0 {
            r.push(trim(parts.last()))
        } else {
            r
        }
    }
}

/// The singular forms of the segments that are not `:` parameters, without
/// those that come out blank.
pub open spec fn code_segments(parts: Seq<Seq<char>>) -> Seq<Seq<char>>
    decreases parts.len(),
{
    if parts.len() == 0 {
        parts
    } else {
        let r = code_segments(parts.drop_last());
        let p = parts.last();
        if has_prefix(p, ":"@) {
            r
        } else if trim(singular(p)).len() > 0 {
            r.push(singular(p))
        } else {
            r
        }
    }
}

/// The permission code of a menu: the singular segments of its full path
/// (without the first of several), joined by `:`, then `:` and the action of
/// its type when there is one.
pub open spec fn menu_code_spec(full_path: Seq<char>, title: Seq<char>, mtype: Seq<char>) -> Seq<char> {
    let path = trim_char(trim(full_path), '/');
    let paths = nonblank_segments(split_char(path, '/'));
    if path.len() == 0 || paths.len() == 0 {
        Seq::<char>::empty()
    } else {
        let rest = if paths.len() > 1 {
            paths.drop_first()
        } else {
            paths
        };
        let base = join(code_segments(rest), ":"@);
        let action = menu_action_spec(title, mtype);
        if base.len() == 0 {
            Seq::<char>::empty()
        } else if action.len() == 0 {
            base
        } else {
            base + ":"@ + action
        }
    }
}

fn nonblank_segments_exec(parts: &Vec<String>) -> (r: Vec<String>)
    ensures
        views(r@) == nonblank_segments(views(parts@)),
{
    let ghost ps = views(parts@);
    let mut out: Vec<String> = Vec::new();
    let mut i: usize = 0;
    while i < parts.len()
        invariant
            i <= parts.len(),
            ps == views(parts@),
            views(out@) == nonblank_segments(ps.subrange(0, i as int)),
        decreases parts.len() - i,
    {
        let t = trim_str(parts[i].as_str());
        proof {
            assert(ps.subrange(0, i + 1).drop_last() =~= ps.subrange(0, i as int));
        }
        if t.unicode_len() > 0 {
            out.push(t);
        }
        i += 1;
        proof {
            assert(views(out@) =~= nonblank_segments(ps.subrange(0, i as int)));
        }
    }
    assert(ps.subrange(0, parts.len() as int) =~= ps);
    out
}

fn code_segments_exec(parts: &Vec<String>, from: usize) -> (r: Vec<String>)
    requires
        from <= parts.len(),
    ensures
        views(r@) == code_segments(views(parts@).subrange(from as int, parts.len() as int)),
{
    let ghost ps = views(parts@).subrange(from as int, parts.len() as int);
    let mut out: Vec<String> = Vec::new();
    let mut i: usize = from;
    proof {
        assert(ps.subrange(0, 0) =~= Seq::<Seq<char>>::empty());
    }
    while i < parts.len()
        invariant
            from <= i <= parts.len(),
            ps == views(parts@).subrange(from as int, parts.len() as int),
            views(out@) == code_segments(ps.subrange(0, i - from)),
        decreases parts.len() - i,
    {
        let p = parts[i].as_str();
        proof {
            assert(ps.subrange(0, i - from + 1).drop_last() =~= ps.subrange(0, i - from));
            assert(ps.subrange(0, i - from + 1).last() == p@);
        }
        if !starts_with(p, ":") {
            let s = singularize(p);
            let st = trim_str(s.as_str());
            if st.unicode_len() > 0 {
                out.push(s);
            }
        }
        i += 1;
        proof {
            assert(views(out@) =~= code_segments(ps.subrange(0, i - from)));
        }
    }
    assert(ps.subrange(0, parts.len() - from) =~= ps);
    out
}

/// The permission code of a menu, from its full path, title and type.
pub fn convert_menu_code(full_path: &str, title: &str, mtype: &str) -> (r: String)
    ensures
        r@ == menu_code_spec(full_path@, title@, mtype@),
{
    let path = trim_char_str(trim_str(full_path).as_str(), '/');
    if path.unicode_len() == 0 {
        return String::new();
    }
    let paths = nonblank_segments_exec(&split_char_str(path.as_str(), '/'));
    if paths.len() == 0 {
        return String::new();
    }
    let from: usize = if paths.len() > 1 {
        1
    } else {
        0
    };
    proof {
        let ps = views(paths@);
        if paths.len() > 1 {
            assert(ps.subrange(1, ps.len() as int) =~= ps.drop_first());
        } else {
            assert(ps.subrange(0, ps.len() as int) =~= ps);
        }
    }
    let segs = code_segments_exec(&paths, from);
    let base = join_strings(&segs, ":");
    if base.unicode_len() == 0 {
        return String::new();
    }
    let action = menu_type_to_action(title, mtype);
    if action.unicode_len() == 0 {
        base
    } else {
        cat3(base.as_str(), ":", action.as_str())
    }
}

/// The module of a menu path: its second `/` segment, trimmed, else `biz`.
pub open spec fn module_spec(menu_path: Seq<char>) -> Seq<char> {
    let parts = split_char(menu_path, '/');
    if parts.len() > 1 && trim(parts[1]).len() > 0 {
        trim(parts[1])
    } else {
        "biz"@
    }
}

pub fn menu_path_to_module(menu_path: &str) -> (r: String)
    ensures
        r@ == module_spec(menu_path@),
{
    let parts = split_char_str(menu_path, '/');
    if parts.len() > 1 {
        let m = trim_str(parts[1].as_str());
        if m.unicode_len() > 0 {
            return m;
        }
    }
    String::from_str("biz")
}

/// `PascalCase`: separators (`_`, `-`, `:`, space) dropped, and the character
/// after one (and the first) upper-cased.
pub open spec fn pascal_from(s: Seq<char>, upper: bool) -> Seq<char>
    decreases s.len(),
{
    if s.len() == 0 {
        s
    } else {
        let c = s[0];
        if c == '_' || c == '-' || c == ':' || c == ' ' {
            pascal_from(s.drop_first(), true)
        } else if upper {
            unicode_uppercase(seq![c]) + pascal_from(s.drop_first(), false)
        } else {
            seq![c] + pascal_from(s.drop_first(), false)
        }
    }
}

pub fn pascal_case(s: &str) -> (r: String)
    ensures
        r@ == pascal_from(s@, true),
{
    let v = chars_of(s);
    let mut out = String::new();
    let mut upper = true;
    let mut i: usize = 0;
    assert(v@.subrange(0, v.len() as int) =~= s@);
    assert(out@ + pascal_from(s@, true) =~= pascal_from(s@, true));
    while i < v.len()
        invariant
            v@ == s@,
            i <= v.len(),
            out@ + pascal_from(v@.subrange(i as int, v.len() as int), upper) == pascal_from(s@, true),
        decreases v.len() - i,
    {
        let c = v[i];
        let ghost rest = v@.subrange(i as int, v.len() as int);
        let ghost tail = v@.subrange(i + 1, v.len() as int);
        let ghost old_out = out@;
        let ghost old_upper = upper;
        proof {
            assert(rest.drop_first() =~= tail);
            assert(rest[0] == c);
        }
        if c == '_' || c == '-' || c == ':' || c == ' ' {
            upper = true;
        } else if upper {
            let u = to_uppercase(char_string(c).as_str());
            out = cat(out.as_str(), u.as_str());
            upper = false;
        } else {
            out = cat(out.as_str(), char_string(c).as_str());
            upper = false;
        }
        proof {
            let x = out@.subrange(old_out.len() as int, out@.len() as int);
            assert(out@ =~= old_out + x);
            assert(x + pascal_from(tail, upper) == pascal_from(rest, old_upper));
            assert(out@ + pascal_from(tail, upper) =~= old_out + (x + pascal_from(tail, upper)));
        }
        i += 1;
    }
    assert(v@.subrange(v.len() as int, v.len() as int) =~= Seq::<char>::empty());
    assert(out@ + Seq::<char>::empty() =~= out@);
    out
}

/// Whether a route segment is a version (`v` then a digit, then digits and
/// dots), once lower-cased.
pub open spec fn is_version(seg: Seq<char>) -> bool {
    let l = unicode_lowercase(seg);
    &&& l.len() >= 2
    &&& l[0] == 'v'
    &&& is_digit(l[1])
    &&& forall|k: int| 1 <= k < l.len() ==> is_digit(#[trigger] l[k]) || l[k] == '.'
}

/// The index of the first version segment, or -1.
pub open spec fn first_version(parts: Seq<Seq<char>>) -> int
    decreases parts.len(),
{
    if parts.len() == 0 {
        -1
    } else if is_version(parts[0]) {
        0
    } else {
        let r = first_version(parts.drop_first());
        if r < 0 {
            -1
        } else {
            r + 1
        }
    }
}

proof fn lemma_first_version(parts: Seq<Seq<char>>, i: int)
    requires
        0 <= i <= parts.len(),
        i < parts.len() ==> is_version(parts[i]),
        forall|j: int| 0 <= j < i ==> !is_version(#[trigger] parts[j]),
    ensures
        first_version(parts) == if i < parts.len() {
            i
        } else {
            -1
        },
    decreases i,
{
    if i > 0 {
        let t = parts.drop_first();
        assert forall|j: int| 0 <= j < i - 1 implies !is_version(#[trigger] t[j]) by {
            assert(t[j] == parts[j + 1]);
        }
        assert(!is_version(parts[0]));
        lemma_first_version(t, i - 1);
    }
}

fn version_segment(seg: &str) -> (r: bool)
    ensures
        r == is_version(seg@),
{
    let l = chars_of(to_lowercase(seg).as_str());
    if l.len() < 2 || l[0] != 'v' || !char_is_digit(l[1]) {
        return false;
    }
    let mut k: usize = 1;
    while k < l.len()
        invariant
            1 <= k <= l.len(),
            l@ == unicode_lowercase(seg@),
            forall|j: int| 1 <= j < k ==> is_digit(#[trigger] l@[j]) || l@[j] == '.',
        decreases l.len() - k,
    {
        if !(char_is_digit(l[k]) || l[k] == '.') {
            return false;
        }
        k += 1;
    }
    true
}

/// The segments that `p` keeps, in order.
pub open spec fn keep(parts: Seq<Seq<char>>, p: spec_fn(Seq<char>) -> bool) -> Seq<Seq<char>>
    decreases parts.len(),
{
    if parts.len() == 0 {
        parts
    } else if p(parts.last()) {
        keep(parts.drop_last(), p).push(parts.last())
    } else {
        keep(parts.drop_last(), p)
    }
}

pub open spec fn route_word(s: Seq<char>) -> bool {
    trim(s).len() > 0 && ascii_lower(s) != "api"@
}

pub open spec fn not_param(s: Seq<char>) -> bool {
    !(has_prefix(trim(s), "{"@) && has_suffix(trim(s), "}"@))
}

fn keep_route_words(parts: &Vec<String>, from: usize) -> (r: Vec<String>)
    requires
        from <= parts.len(),
    ensures
        views(r@) == keep(
            views(parts@).subrange(from as int, parts.len() as int),
            |s: Seq<char>| route_word(s),
        ),
{
    let ghost ps = views(parts@).subrange(from as int, parts.len() as int);
    let mut out: Vec<String> = Vec::new();
    let mut i: usize = from;
    proof {
        assert(ps.subrange(0, 0) =~= Seq::<Seq<char>>::empty());
        reveal_strlit("api");
        assert(ascii_lower("api"@) =~= "api"@);
    }
    while i < parts.len()
        invariant
            from <= i <= parts.len(),
            ps == views(parts@).subrange(from as int, parts.len() as int),
            views(out@) == keep(ps.subrange(0, i - from), |s: Seq<char>| route_word(s)),
            ascii_lower("api"@) == "api"@,
        decreases parts.len() - i,
    {
        let p = parts[i].as_str();
        proof {
            assert(ps.subrange(0, i - from + 1).drop_last() =~= ps.subrange(0, i - from));
            assert(ps.subrange(0, i - from + 1).last() == p@);
        }
        let t = trim_str(p);
        if t.unicode_len() > 0 && !eq_ignore_ascii_case(p, "api") {
            out.push(String::from_str(p));
        }
        i += 1;
        proof {
            assert(views(out@) =~= keep(ps.subrange(0, i - from), |s: Seq<char>| route_word(s)));
        }
    }
    assert(ps.subrange(0, parts.len() - from) =~= ps);
    out
}

fn keep_non_params(parts: &Vec<String>) -> (r: Vec<String>)
    ensures
        views(r@) == keep(views(parts@), |s: Seq<char>| not_param(s)),
{
    let ghost ps = views(parts@);
    let mut out: Vec<String> = Vec::new();
    let mut i: usize = 0;
    proof {
        assert(ps.subrange(0, 0) =~= Seq::<Seq<char>>::empty());
    }
    while i < parts.len()
        invariant
            i <= parts.len(),
            ps == views(parts@),
            views(out@) == keep(ps.subrange(0, i as int), |s: Seq<char>| not_param(s)),
        decreases parts.len() - i,
    {
        let p = parts[i].as_str();
        proof {
            assert(ps.subrange(0, i + 1).drop_last() =~= ps.subrange(0, i as int));
            assert(ps.subrange(0, i + 1).last() == p@);
        }
        let t = trim_str(p);
        if !(starts_with(t.as_str(), "{") && ends_with(t.as_str(), "}")) {
            out.push(String::from_str(p));
        }
        i += 1;
        proof {
            assert(views(out@) =~= keep(ps.subrange(0, i as int), |s: Seq<char>| not_param(s)));
        }
    }
    assert(ps.subrange(0, parts.len() as int) =~= ps);
    out
}

/// The resource of an API route: without a leading `api` segment, a version
/// segment among the first two (and what precedes it), blank and `api`
/// segments and `{param}` segments; the first remaining segment, trimmed of
/// `:`, in the singular (its part before a `:` when it holds one).
pub open spec fn resource_spec(path: Seq<char>) -> Seq<char> {
    let p = trim_char(trim(path), '/');
    let parts0 = split_char(p, '/');
    let parts1 = if ascii_lower(parts0[0]) == "api"@ {
        parts0.drop_first()
    } else {
        parts0
    };
    let idx = first_version(parts1);
    let parts2 = if 0 <= idx <= 1 {
        parts1.subrange(idx + 1, parts1.len() as int)
    } else {
        parts1
    };
    let clean = keep(keep(parts2, |s: Seq<char>| route_word(s)), |s: Seq<char>| not_param(s));
    if p.len() == 0 || clean.len() == 0 {
        Seq::<char>::empty()
    } else {
        let raw = trim_char(trim(clean[0]), ':');
        if raw.len() == 0 || singular(raw).len() == 0 {
            Seq::<char>::empty()
        } else if raw.contains(':') {
            singular(split_char(raw, ':')[0])
        } else {
            singular(raw)
        }
    }
}

pub fn api_path_to_resource(path: &str) -> (r: String)
    ensures
        r@ == resource_spec(path@),
{
    let p = trim_char_str(trim_str(path).as_str(), '/');
    if p.unicode_len() == 0 {
        return String::new();
    }
    let parts0 = split_char_str(p.as_str(), '/');
    proof {
        crate::text::lemma_split_nonempty(p@, '/');
        reveal_strlit("api");
        assert(ascii_lower("api"@) =~= "api"@);
    }
    let skip: usize = if eq_ignore_ascii_case(parts0[0].as_str(), "api") {
        1
    } else {
        0
    };
    let ghost parts1 = views(parts0@).subrange(skip as int, parts0.len() as int);
    proof {
        if skip == 1 {
            assert(parts1 =~= views(parts0@).drop_first());
        } else {
            assert(parts1 =~= views(parts0@));
        }
    }
    let mut i: usize = skip;
    while i < parts0.len()
        invariant
            skip <= i <= parts0.len(),
            skip <= 1,
            parts0.len() >= 1,
            parts1 == views(parts0@).subrange(skip as int, parts0.len() as int),
            forall|j: int| 0 <= j < i - skip ==> !is_version(#[trigger] parts1[j]),
        ensures
            skip <= i <= parts0.len(),
            i < parts0.len() ==> is_version(parts1[i - skip]),
            forall|j: int| 0 <= j < i - skip ==> !is_version(#[trigger] parts1[j]),
        decreases parts0.len() - i,
    {
        if version_segment(parts0[i].as_str()) {
            assert(parts1[i - skip] == parts0@[i as int]@);
            break;
        }
        i += 1;
    }
    let idx: usize = i - skip;
    proof {
        lemma_first_version(parts1, idx as int);
    }
    let from: usize = if i < parts0.len() && idx <= 1 {
        i + 1
    } else {
        skip
    };
    proof {
        let parts2 = if 0 <= first_version(parts1) <= 1 {
            parts1.subrange(first_version(parts1) + 1, parts1.len() as int)
        } else {
            parts1
        };
        assert(parts2 =~= views(parts0@).subrange(from as int, parts0.len() as int));
    }
    let words = keep_route_words(&parts0, from);
    let clean = keep_non_params(&words);
    if clean.len() == 0 {
        return String::new();
    }
    let raw = trim_char_str(trim_str(clean[0].as_str()).as_str(), ':');
    if raw.unicode_len() == 0 {
        return String::new();
    }
    let resource = singularize(raw.as_str());
    if resource.unicode_len() == 0 {
        return String::new();
    }
    if contains_char(raw.as_str(), ':') {
        let pieces = split_char_str(raw.as_str(), ':');
        proof {
            crate::text::lemma_split_nonempty(raw@, ':');
        }
        return singularize(pieces[0].as_str());
    }
    resource
}

/// The permission code of an API: its resource, `:` and the action of its
/// method (`view` for a `/list` route), or empty when either is unknown.
pub open spec fn api_code_spec(method: Seq<char>, path: Seq<char>) -> Seq<char> {
    let res = resource_spec(path);
    let m = ascii_upper(method);
    if res.len() == 0 {
        Seq::<char>::empty()
    } else if has_suffix(path, "/list"@) || m == "GET"@ {
        res + ":"@ + "view"@
    } else if m == "POST"@ {
        res + ":"@ + "create"@
    } else if m == "PUT"@ || m == "PATCH"@ {
        res + ":"@ + "edit"@
    } else if m == "DELETE"@ {
        res + ":"@ + "delete"@
    } else {
        Seq::<char>::empty()
    }
}

pub fn convert_api_code(method: &str, path: &str) -> (r: String)
    ensures
        r@ == api_code_spec(method@, path@),
{
    let resource = api_path_to_resource(path);
    if resource.unicode_len() == 0 {
        return String::new();
    }
    let action = if ends_with(path, "/list") {
        "view"
    } else {
        let m = to_ascii_upper(method);
        let ms = m.as_str();
        if str_eq(ms, "GET") {
            "view"
        } else if str_eq(ms, "POST") {
            "create"
        } else if str_eq(ms, "PUT") || str_eq(ms, "PATCH") {
            "edit"
        } else if str_eq(ms, "DELETE") {
            "delete"
        } else {
            return String::new();
        }
    };
    cat3(resource.as_str(), ":", action)
}

// ===================== full menu paths =====================

/// A menu as the path computation reads it: id, path part, name, parent id.
pub type MenuLink = (i64, String, String, i64);

/// The index of the last menu with id `id`, or -1 (a later menu with the same
/// id replaces an earlier one).
pub open spec fn last_menu(menus: Seq<MenuLink>, id: i64) -> int
    decreases menus.len(),
{
    if menus.len() == 0 {
        -1
    } else if menus.last().0 == id {
        menus.len() - 1
    } else {
        last_menu(menus.drop_last(), id)
    }
}

/// A parent's full path and a part, joined by `/` when both are present.
pub open spec fn join_path(parent: Seq<char>, part: Seq<char>) -> Seq<char> {
    if parent.len() == 0 {
        part
    } else if part.len() == 0 {
        parent
    } else {
        parent + "/"@ + part
    }
}

pub open spec fn view_memo(m: Map<i64, String>) -> Map<i64, Seq<char>> {
    m.map_values(|s: String| s@)
}

/// The full path of menu `id` and the table of known paths after computing
/// it, from the table `memo` and the chain of menus whose paths are being
/// computed. A known path is reused; a menu met again on the chain (a parent
/// cycle) stands for its own part; an unknown id has the empty path;
/// otherwise the parent's full path (none for a root, parent 0, or a menu
/// that is its own parent) is joined with the menu's part, trimmed of `/`.
/// Each computed path is recorded. (The chain holds distinct menu ids, so it
/// never grows longer than the menus: the guard on its length only bounds
/// the recursion.)
pub open spec fn path_step(
    menus: Seq<MenuLink>,
    id: i64,
    memo: Map<i64, Seq<char>>,
    chain: Seq<i64>,
) -> (Seq<char>, Map<i64, Seq<char>>)
    decreases menus.len() - chain.len(),
{
    let k = last_menu(menus, id);
    if memo.contains_key(id) {
        (memo[id], memo)
    } else if chain.contains(id) {
        let v = if k < 0 {
            Seq::<char>::empty()
        } else {
            trim_char(menus[k].1@, '/')
        };
        (v, memo.insert(id, v))
    } else if k < 0 {
        (Seq::<char>::empty(), memo.insert(id, Seq::<char>::empty()))
    } else {
        let parent = menus[k].3;
        let part = trim_char(menus[k].1@, '/');
        let up = if parent == 0 || parent == id || chain.len() + 1 > menus.len() {
            (Seq::<char>::empty(), memo)
        } else {
            path_step(menus, parent, memo, chain.push(id))
        };
        let v = join_path(up.0, part);
        (v, up.1.insert(id, v))
    }
}

/// The table of full paths after computing those of the first `n` menus in
/// order.
pub open spec fn full_paths(menus: Seq<MenuLink>, n: int) -> Map<i64, Seq<char>>
    decreases n,
{
    if n <= 0 {
        Map::empty()
    } else {
        path_step(menus, menus[n - 1].0, full_paths(menus, n - 1), Seq::empty()).1
    }
}

proof fn lemma_last_menu(menus: Seq<MenuLink>, id: i64)
    ensures
        -1 <= last_menu(menus, id) < menus.len(),
        last_menu(menus, id) >= 0 ==> menus[last_menu(menus, id)].0 == id,
        last_menu(menus, id) < 0 ==> forall|k: int| 0 <= k < menus.len() ==> menus[k].0 != id,
        last_menu(menus, id) >= 0 ==> forall|k: int|
            last_menu(menus, id) < k < menus.len() ==> menus[k].0 != id,
    decreases menus.len(),
{
    if menus.len() > 0 {
        let d = menus.drop_last();
        lemma_last_menu(d, id);
        assert forall|k: int| 0 <= k < d.len() implies d[k] == menus[k] by {}
    }
}

fn find_last_menu(menus: &Vec<MenuLink>, id: i64) -> (r: Option<usize>)
    ensures
        match r {
            Some(k) => k == last_menu(menus@, id),
            None => last_menu(menus@, id) < 0,
        },
{
    proof {
        lemma_last_menu(menus@, id);
    }
    let mut i: usize = menus.len();
    while i > 0
        invariant
            i <= menus.len(),
            forall|k: int| i <= k < menus.len() ==> menus@[k].0 != id,
        decreases i,
    {
        if menus[i - 1].0 == id {
            proof {
                lemma_last_menu(menus@, id);
                if last_menu(menus@, id) != i - 1 {
                    assert(menus@[last_menu(menus@, id)].0 == id);
                }
            }
            return Some(i - 1);
        }
        i -= 1;
    }
    None
}

fn path_of(
    menus: &Vec<MenuLink>,
    id: i64,
    memo: &mut HashMap<i64, String>,
    chain: &mut Vec<i64>,
) -> (r: String)
    requires
        old(chain)@.no_duplicates(),
        forall|k: int| 0 <= k < old(chain)@.len() ==> last_menu(menus@, #[trigger] old(chain)@[k]) >= 0,
        old(chain)@.len() <= menus.len(),
    ensures
        (r@, view_memo(final(memo)@)) == path_step(menus@, id, view_memo(old(memo)@), old(chain)@),
        final(chain)@ == old(chain)@,
    decreases menus.len() - old(chain)@.len(),
{
    proof {
        broadcast use vstd::std_specs::hash::group_hash_axioms;
    }
    let ghost m0 = view_memo(memo@);
    if let Some(v) = memo.get(&id) {
        let r = v.clone();
        proof {
            assert(m0.contains_key(id) && m0[id] == r@);
        }
        return r;
    }
    let found = find_last_menu(menus, id);
    proof {
        lemma_last_menu(menus@, id);
    }
    if vec_contains(chain, id) {
        let v = match found {
            Some(k) => trim_char_str(menus[k].1.as_str(), '/'),
            None => String::new(),
        };
        memo.insert(id, v.clone());
        proof {
            assert(view_memo(memo@) =~= m0.insert(id, v@));
        }
        return v;
    }
    match found {
        None => {
            memo.insert(id, String::new());
            proof {
                assert(view_memo(memo@) =~= m0.insert(id, Seq::<char>::empty()));
            }
            String::new()
        },
        Some(k) => {
            let parent = menus[k].3;
            let part = trim_char_str(menus[k].1.as_str(), '/');
            let up = if parent == 0 || parent == id {
                String::new()
            } else {
                proof {
                    let ids = menus@.map_values(|m: MenuLink| m.0);
                    let c2 = chain@.push(id);
                    assert forall|j: int| 0 <= j < c2.len() implies ids.contains(#[trigger] c2[j]) by {
                        let x = c2[j];
                        lemma_last_menu(menus@, x);
                        let q = last_menu(menus@, x);
                        assert(ids[q] == x);
                    }
                    assert(c2.no_duplicates());
                    crate::handlers::lemma_chain_bound(ids, c2);
                }
                chain.push(id);
                let s = path_of(menus, parent, memo, chain);
                chain.pop();
                s
            };
            let v = if up.unicode_len() == 0 {
                part
            } else if part.unicode_len() == 0 {
                up
            } else {
                cat3(up.as_str(), "/", part.as_str())
            };
            let ghost m1 = view_memo(memo@);
            memo.insert(id, v.clone());
            proof {
                assert(view_memo(memo@) =~= m1.insert(id, v@));
            }
            v
        },
    }
}

/// The full path of each menu: its parents' parts and its own, joined by
/// `/`, computed in the menus' order with a table of known paths.
pub fn compose_menu_paths(menus: &Vec<MenuLink>) -> (r: HashMap<i64, String>)
    ensures
        view_memo(r@) == full_paths(menus@, menus.len() as int),
{
    proof {
        broadcast use vstd::std_specs::hash::group_hash_axioms;
    }
    let mut memo: HashMap<i64, String> = HashMap::new();
    let mut i: usize = 0;
    assert(view_memo(memo@) =~= full_paths(menus@, 0));
    while i < menus.len()
        invariant
            i <= menus.len(),
            view_memo(memo@) == full_paths(menus@, i as int),
        decreases menus.len() - i,
    {
        let mut chain: Vec<i64> = Vec::new();
        path_of(menus, menus[i].0, &mut memo, &mut chain);
        i += 1;
    }
    memo
}

// ===================== rebuilding the permissions =====================

/// An enabled menu, as the rebuild reads it.
pub struct SyncMenu {
    pub id: i64,
    pub name: String,
    pub path: String,
    pub parent_id: i64,
    pub mtype: String,
}

/// An enabled API, as the rebuild reads it.
pub struct SyncApi {
    pub id: i64,
    pub method: String,
    pub path: String,
}

/// A permission being rebuilt, with the module that selects its group.
pub struct PermAcc {
    pub name: String,
    pub code: String,
    pub module: String,
    pub menu_ids: Vec<i64>,
    pub api_ids: Vec<i64>,
    pub group_id: Option<i64>,
}

/// A permission being rebuilt: name, code, module, menu ids, API ids, group.
pub type PermView = (Seq<char>, Seq<char>, Seq<char>, Seq<i64>, Seq<i64>, Option<i64>);

pub open spec fn perm_view(p: PermAcc) -> PermView {
    (p.name@, p.code@, p.module@, p.menu_ids@, p.api_ids@, p.group_id)
}

pub open spec fn perm_views(s: Seq<PermAcc>) -> Seq<PermView> {
    s.map_values(|p: PermAcc| perm_view(p))
}

pub open spec fn pair_views(s: Seq<(String, String)>) -> Seq<(Seq<char>, Seq<char>)> {
    s.map_values(|g: (String, String)| (g.0@, g.1@))
}

/// Whether menu `a` comes before menu `b` when sorted by parent id, ties kept
/// in the given order.
pub open spec fn parent_before(parents: Seq<i64>, a: int, b: int) -> bool {
    parents[a] < parents[b] || (parents[a] == parents[b] && a < b)
}

/// `order` lists the menus sorted by parent id, a stable sort: each index
/// once (strictly increasing in that order, all in range, as many as menus).
pub open spec fn stable_by_parent(parents: Seq<i64>, order: Seq<usize>) -> bool {
    &&& order.len() == parents.len()
    &&& forall|k: int| 0 <= k < order.len() ==> order[k] < parents.len()
    &&& forall|k: int, l: int|
        0 <= k < l < order.len() ==> parent_before(parents, #[trigger] order[k] as int, #[trigger] order[l] as int)
}

pub open spec fn parents_of(menus: Seq<SyncMenu>) -> Seq<i64> {
    menus.map_values(|m: SyncMenu| m.parent_id)
}

/// The menus' indices, sorted by parent id (stable).
pub fn parent_order(menus: &Vec<SyncMenu>) -> (r: Vec<usize>)
    ensures
        stable_by_parent(parents_of(menus@), r@),
{
    let ghost ps = parents_of(menus@);
    let mut order: Vec<usize> = Vec::new();
    let mut i: usize = 0;
    while i < menus.len()
        invariant
            i <= menus.len(),
            ps == parents_of(menus@),
            order.len() == i,
            forall|k: int| 0 <= k < order.len() ==> order@[k] < i,
            forall|k: int, l: int|
                0 <= k < l < order.len() ==> parent_before(ps, #[trigger] order@[k] as int, #[trigger] order@[l] as int),
        decreases menus.len() - i,
    {
        let p = menus[i].parent_id;
        let mut pos: usize = 0;
        while pos < order.len() && menus[order[pos]].parent_id <= p
            invariant
                pos <= order.len(),
                p == ps[i as int],
                ps == parents_of(menus@),
                i < menus.len(),
                forall|k: int| 0 <= k < order.len() ==> order@[k] < i,
                forall|k: int| 0 <= k < pos ==> ps[#[trigger] order@[k] as int] <= p,
            decreases order.len() - pos,
        {
            pos += 1;
        }
        let ghost old_order = order@;
        order.insert(pos, i);
        proof {
            assert forall|k: int, l: int| 0 <= k < l < order.len() implies parent_before(
                ps,
                #[trigger] order@[k] as int,
                #[trigger] order@[l] as int,
            ) by {
                if l < pos {
                    assert(order@[k] == old_order[k] && order@[l] == old_order[l]);
                } else if l == pos {
                    assert(ps[old_order[k] as int] <= p);
                } else if k < pos {
                    assert(order@[k] == old_order[k] && order@[l] == old_order[l - 1]);
                } else if k == pos {
                    assert(order@[l] == old_order[l - 1]);
                    assert(ps[old_order[pos as int] as int] > p);
                    if l - 1 > pos {
                        assert(parent_before(ps, old_order[pos as int] as int, old_order[l - 1] as int));
                    }
                } else {
                    assert(order@[k] == old_order[k - 1] && order@[l] == old_order[l - 1]);
                }
            }
        }
        i += 1;
    }
    order
}

/// The menus as the path computation reads them.
pub open spec fn links_of(menus: Seq<SyncMenu>) -> Seq<MenuLink> {
    menus.map_values(|m: SyncMenu| (m.id, m.path, m.name, m.parent_id))
}

/// The full path of a menu from the table, or empty.
pub open spec fn path_in(paths: Map<i64, Seq<char>>, id: i64) -> Seq<char> {
    if paths.contains_key(id) {
        paths[id]
    } else {
        Seq::<char>::empty()
    }
}

/// The groups and permissions of the menus in `order`: a menu whose code is
/// not empty gives a permission (its name, code and module, its own id); a
/// catalog also gives a group (its name and module). The first group is the
/// fixed "uncategorized" one.
pub open spec fn menu_plan(
    menus: Seq<SyncMenu>,
    paths: Map<i64, Seq<char>>,
    order: Seq<usize>,
) -> (Seq<(Seq<char>, Seq<char>)>, Seq<PermView>)
    decreases order.len(),
{
    if order.len() == 0 {
        (seq![("未分类"@, "uncategorized"@)], Seq::empty())
    } else {
        let prev = menu_plan(menus, paths, order.drop_last());
        let m = menus[order.last() as int];
        let fp = path_in(paths, m.id);
        let code = menu_code_spec(fp, m.name@, m.mtype@);
        let module = module_spec(fp);
        if code.len() == 0 {
            prev
        } else {
            let groups = if m.mtype@ == "CATALOG"@ {
                prev.0.push((m.name@, module))
            } else {
                prev.0
            };
            (
                groups,
                prev.1.push((m.name@, code, module, seq![m.id], Seq::<i64>::empty(), None::<i64>)),
            )
        }
    }
}

/// The index of the entry for `code`, or -1.
pub open spec fn code_index(codes: Seq<(Seq<char>, Seq<i64>)>, code: Seq<char>) -> int
    decreases codes.len(),
{
    if codes.len() == 0 {
        -1
    } else if codes.last().0 == code {
        codes.len() - 1
    } else {
        code_index(codes.drop_last(), code)
    }
}

/// The API ids under each API code that is not empty, the codes in order of
/// first appearance.
pub open spec fn api_codes(apis: Seq<SyncApi>) -> Seq<(Seq<char>, Seq<i64>)>
    decreases apis.len(),
{
    if apis.len() == 0 {
        Seq::empty()
    } else {
        let prev = api_codes(apis.drop_last());
        let a = apis.last();
        let c = api_code_spec(a.method@, a.path@);
        let k = code_index(prev, c);
        if c.len() == 0 {
            prev
        } else if k < 0 {
            prev.push((c, seq![a.id]))
        } else {
            prev.update(k, (c, prev[k].1.push(a.id)))
        }
    }
}

/// The permissions with the API ids of their code attached (the first
/// permission with a code takes its APIs), and the codes that no permission
/// took.
pub open spec fn attach_apis(
    perms: Seq<PermView>,
    codes: Seq<(Seq<char>, Seq<i64>)>,
) -> (Seq<PermView>, Seq<(Seq<char>, Seq<i64>)>)
    decreases perms.len(),
{
    if perms.len() == 0 {
        (perms, codes)
    } else {
        let prev = attach_apis(perms.drop_last(), codes);
        let p = perms.last();
        let k = code_index(prev.1, p.1);
        if k < 0 {
            (prev.0.push(p), prev.1)
        } else {
            (prev.0.push((p.0, p.1, p.2, p.3, prev.1[k].1, p.5)), prev.1.remove(k))
        }
    }
}

/// The part of a code before its first `:`.
pub open spec fn first_segment(code: Seq<char>) -> Seq<char> {
    split_char(code, ':')[0]
}

/// The module of the first permission whose code's first segment begins the
/// first segment of `code`, else "uncategorized".
pub open spec fn module_for(perms: Seq<PermView>, code: Seq<char>) -> Seq<char>
    decreases perms.len(),
{
    if perms.len() == 0 {
        "uncategorized"@
    } else if has_prefix(first_segment(code), first_segment(perms[0].1)) {
        perms[0].2
    } else {
        module_for(perms.drop_first(), code)
    }
}

/// `code` with each `:` replaced by `_`.
pub open spec fn colons_to_underscores(code: Seq<char>) -> Seq<char> {
    code.map_values(|c: char| if c == ':' { '_' } else { c })
}

/// The permissions followed by one for each code that no menu took: named by
/// the code in PascalCase, in the module found for it among the permissions
/// before it.
pub open spec fn extend_with_codes(
    perms: Seq<PermView>,
    codes: Seq<(Seq<char>, Seq<i64>)>,
) -> Seq<PermView>
    decreases codes.len(),
{
    if codes.len() == 0 {
        perms
    } else {
        let prev = extend_with_codes(perms, codes.drop_last());
        let c = codes.last();
        prev.push(
            (
                pascal_from(colons_to_underscores(c.0), true),
                c.0,
                module_for(prev, c.0),
                Seq::<i64>::empty(),
                c.1,
                None::<i64>,
            ),
        )
    }
}

/// The groups and permissions that the rebuild creates, for the menus taken
/// in `order`: menu permissions with their APIs attached, then the
/// permissions of the remaining API codes.
pub open spec fn sync_plan(
    menus: Seq<SyncMenu>,
    order: Seq<usize>,
    apis: Seq<SyncApi>,
) -> (Seq<(Seq<char>, Seq<char>)>, Seq<PermView>) {
    let paths = full_paths(links_of(menus), menus.len() as int);
    let mp = menu_plan(menus, paths, order);
    let at = attach_apis(mp.1, api_codes(apis));
    (mp.0, extend_with_codes(at.0, at.1))
}

/// Every permission a menu gives has a code that is not empty and exactly
/// that menu's id; the first group is the uncategorized one.
pub proof fn lemma_menu_plan_permissions(menus: Seq<SyncMenu>, paths: Map<i64, Seq<char>>, order: Seq<usize>)
    ensures
        ({
            let mp = menu_plan(menus, paths, order);
            &&& mp.0.len() >= 1
            &&& mp.0[0] == ("未分类"@, "uncategorized"@)
            &&& mp.1.len() <= order.len()
            &&& forall|i: int| 0 <= i < mp.1.len() ==> (#[trigger] mp.1[i]).1.len() > 0 && mp.1[i].3.len() == 1
                && mp.1[i].4.len() == 0
        }),
    decreases order.len(),
{
    if order.len() > 0 {
        lemma_menu_plan_permissions(menus, paths, order.drop_last());
        let prev = menu_plan(menus, paths, order.drop_last());
        let mp = menu_plan(menus, paths, order);
        assert forall|i: int| 0 <= i < mp.1.len() implies (#[trigger] mp.1[i]).1.len() > 0 && mp.1[i].3.len()
            == 1 && mp.1[i].4.len() == 0 by {
            if i < prev.1.len() {
                assert(mp.1[i] == prev.1[i]);
            }
        }
        if mp.0.len() > prev.0.len() {
            assert(mp.0[0] == prev.0[0]);
        }
    }
}

/// The API codes are not empty and each appears once.
pub proof fn lemma_api_codes_distinct(apis: Seq<SyncApi>)
    ensures
        ({
            let c = api_codes(apis);
            &&& forall|i: int| 0 <= i < c.len() ==> (#[trigger] c[i]).0.len() > 0
            &&& forall|i: int, j: int| 0 <= i < j < c.len() ==> (#[trigger] c[i]).0 != (#[trigger] c[j]).0
        }),
    decreases apis.len(),
{
    if apis.len() > 0 {
        let prev = api_codes(apis.drop_last());
        lemma_api_codes_distinct(apis.drop_last());
        let a = apis.last();
        let code = api_code_spec(a.method@, a.path@);
        lemma_code_index(prev, code);
        let c = api_codes(apis);
        if code.len() > 0 {
            let k = code_index(prev, code);
            if k < 0 {
                assert forall|i: int, j: int| 0 <= i < j < c.len() implies (#[trigger] c[i]).0 != (
                #[trigger] c[j]).0 by {
                    if j < prev.len() {
                        assert(c[i] == prev[i] && c[j] == prev[j]);
                    } else {
                        assert(c[i] == prev[i]);
                    }
                }
                assert forall|i: int| 0 <= i < c.len() implies (#[trigger] c[i]).0.len() > 0 by {
                    if i < prev.len() {
                        assert(c[i] == prev[i]);
                    }
                }
            } else {
                assert forall|i: int| 0 <= i < c.len() implies (#[trigger] c[i]).0 == prev[i].0 by {}
                assert forall|i: int, j: int| 0 <= i < j < c.len() implies (#[trigger] c[i]).0 != (
                #[trigger] c[j]).0 by {
                    assert(c[i].0 == prev[i].0 && c[j].0 == prev[j].0);
                }
                assert forall|i: int| 0 <= i < c.len() implies (#[trigger] c[i]).0.len() > 0 by {
                    assert(c[i].0 == prev[i].0);
                }
            }
        }
    }
}

pub open spec fn code_views(s: Seq<(String, Vec<i64>)>) -> Seq<(Seq<char>, Seq<i64>)> {
    s.map_values(|e: (String, Vec<i64>)| (e.0@, e.1@))
}

proof fn lemma_code_index(codes: Seq<(Seq<char>, Seq<i64>)>, c: Seq<char>)
    ensures
        -1 <= code_index(codes, c) < codes.len(),
        code_index(codes, c) >= 0 ==> codes[code_index(codes, c)].0 == c,
        code_index(codes, c) < 0 ==> forall|k: int| 0 <= k < codes.len() ==> codes[k].0 != c,
        code_index(codes, c) >= 0 ==> forall|k: int|
            code_index(codes, c) < k < codes.len() ==> codes[k].0 != c,
    decreases codes.len(),
{
    if codes.len() > 0 {
        let d = codes.drop_last();
        lemma_code_index(d, c);
        assert forall|k: int| 0 <= k < d.len() implies d[k] == codes[k] by {}
    }
}

fn find_code(codes: &Vec<(String, Vec<i64>)>, c: &str) -> (r: Option<usize>)
    ensures
        match r {
            Some(k) => k < codes.len() && k == code_index(code_views(codes@), c@),
            None => code_index(code_views(codes@), c@) < 0,
        },
{
    let ghost cv = code_views(codes@);
    proof {
        lemma_code_index(cv, c@);
    }
    let mut i: usize = codes.len();
    while i > 0
        invariant
            i <= codes.len(),
            cv == code_views(codes@),
            forall|k: int| i <= k < codes.len() ==> cv[k].0 != c@,
        decreases i,
    {
        assert(cv[i - 1].0 == codes@[i - 1].0@);
        if str_eq(codes[i - 1].0.as_str(), c) {
            proof {
                lemma_code_index(cv, c@);
                let ci = code_index(cv, c@);
                if ci < 0 {
                    assert(cv[i - 1].0 != c@);
                } else if ci < i - 1 {
                    assert(cv[i - 1].0 != c@);
                } else if ci > i - 1 {
                    assert(cv[ci].0 != c@);
                }
            }
            return Some(i - 1);
        }
        i -= 1;
    }
    None
}

fn menu_links(menus: &Vec<SyncMenu>) -> (r: Vec<MenuLink>)
    ensures
        r@ == links_of(menus@),
{
    let mut out: Vec<MenuLink> = Vec::new();
    let mut i: usize = 0;
    while i < menus.len()
        invariant
            i <= menus.len(),
            out@ == links_of(menus@).subrange(0, i as int),
        decreases menus.len() - i,
    {
        let m = &menus[i];
        out.push((m.id, m.path.clone(), m.name.clone(), m.parent_id));
        i += 1;
        proof {
            assert(out@ =~= links_of(menus@).subrange(0, i as int));
        }
    }
    assert(links_of(menus@).subrange(0, menus.len() as int) =~= links_of(menus@));
    out
}

fn full_path_in(paths: &HashMap<i64, String>, id: i64) -> (r: String)
    ensures
        r@ == path_in(view_memo(paths@), id),
{
    proof {
        broadcast use vstd::std_specs::hash::group_hash_axioms;
    }
    match paths.get(&id) {
        Some(p) => p.clone(),
        None => String::new(),
    }
}

fn plan_menus(menus: &Vec<SyncMenu>, paths: &HashMap<i64, String>, order: &Vec<usize>) -> (r: (
    Vec<(String, String)>,
    Vec<PermAcc>,
))
    requires
        forall|k: int| 0 <= k < order.len() ==> order@[k] < menus.len(),
    ensures
        (pair_views(r.0@), perm_views(r.1@)) == menu_plan(menus@, view_memo(paths@), order@),
{
    let ghost pv = view_memo(paths@);
    let mut groups: Vec<(String, String)> = Vec::new();
    groups.push((String::from_str("未分类"), String::from_str("uncategorized")));
    let mut perms: Vec<PermAcc> = Vec::new();
    let mut i: usize = 0;
    proof {
        assert(order@.subrange(0, 0) =~= Seq::<usize>::empty());
        assert(pair_views(groups@) =~= seq![("未分类"@, "uncategorized"@)]);
        assert(perm_views(perms@) =~= Seq::<PermView>::empty());
    }
    while i < order.len()
        invariant
            i <= order.len(),
            pv == view_memo(paths@),
            forall|k: int| 0 <= k < order.len() ==> order@[k] < menus.len(),
            (pair_views(groups@), perm_views(perms@)) == menu_plan(
                menus@,
                pv,
                order@.subrange(0, i as int),
            ),
        decreases order.len() - i,
    {
        let m = &menus[order[i]];
        proof {
            assert(order@.subrange(0, i + 1).drop_last() =~= order@.subrange(0, i as int));
            assert(order@.subrange(0, i + 1).last() == order@[i as int]);
        }
        let fp = full_path_in(paths, m.id);
        let code = convert_menu_code(fp.as_str(), m.name.as_str(), m.mtype.as_str());
        if code.unicode_len() > 0 {
            let module = menu_path_to_module(fp.as_str());
            if str_eq(m.mtype.as_str(), "CATALOG") {
                groups.push((m.name.clone(), module.clone()));
            }
            let mut ids: Vec<i64> = Vec::new();
            ids.push(m.id);
            perms.push(
                PermAcc {
                    name: m.name.clone(),
                    code,
                    module,
                    menu_ids: ids,
                    api_ids: Vec::new(),
                    group_id: None,
                },
            );
            proof {
                assert(perm_views(perms@).last().3 =~= seq![m.id]);
            }
        }
        i += 1;
        proof {
            let mp = menu_plan(menus@, pv, order@.subrange(0, i as int));
            assert(pair_views(groups@) =~= mp.0);
            assert(perm_views(perms@) =~= mp.1);
        }
    }
    assert(order@.subrange(0, order.len() as int) =~= order@);
    (groups, perms)
}

fn collect_api_codes(apis: &Vec<SyncApi>) -> (r: Vec<(String, Vec<i64>)>)
    ensures
        code_views(r@) == api_codes(apis@),
{
    let mut codes: Vec<(String, Vec<i64>)> = Vec::new();
    let mut i: usize = 0;
    proof {
        assert(apis@.subrange(0, 0) =~= Seq::<SyncApi>::empty());
        assert(code_views(codes@) =~= Seq::<(Seq<char>, Seq<i64>)>::empty());
    }
    while i < apis.len()
        invariant
            i <= apis.len(),
            code_views(codes@) == api_codes(apis@.subrange(0, i as int)),
        decreases apis.len() - i,
    {
        let a = &apis[i];
        proof {
            assert(apis@.subrange(0, i + 1).drop_last() =~= apis@.subrange(0, i as int));
            assert(apis@.subrange(0, i + 1).last() == apis@[i as int]);
        }
        let c = convert_api_code(a.method.as_str(), a.path.as_str());
        if c.unicode_len() > 0 {
            match find_code(&codes, c.as_str()) {
                None => {
                    let mut ids: Vec<i64> = Vec::new();
                    ids.push(a.id);
                    codes.push((c, ids));
                    proof {
                        assert(code_views(codes@).last().1 =~= seq![a.id]);
                    }
                },
                Some(k) => {
                    let ghost prev = code_views(codes@);
                    proof {
                        lemma_code_index(prev, c@);
                    }
                    let (name, mut ids) = codes.remove(k);
                    ids.push(a.id);
                    codes.insert(k, (name, ids));
                    proof {
                        assert(code_views(codes@) =~= prev.update(
                            k as int,
                            (c@, prev[k as int].1.push(a.id)),
                        ));
                    }
                },
            }
        }
        i += 1;
        proof {
            assert(code_views(codes@) =~= api_codes(apis@.subrange(0, i as int)));
        }
    }
    assert(apis@.subrange(0, apis.len() as int) =~= apis@);
    codes
}

fn attach(perms: Vec<PermAcc>, codes: Vec<(String, Vec<i64>)>) -> (r: (
    Vec<PermAcc>,
    Vec<(String, Vec<i64>)>,
))
    ensures
        (perm_views(r.0@), code_views(r.1@)) == attach_apis(perm_views(perms@), code_views(codes@)),
{
    let ghost pv = perm_views(perms@);
    let ghost cv = code_views(codes@);
    let mut rest = codes;
    let mut out: Vec<PermAcc> = Vec::new();
    let mut i: usize = 0;
    proof {
        assert(pv.subrange(0, 0) =~= Seq::<PermView>::empty());
        assert(perm_views(out@) =~= Seq::<PermView>::empty());
    }
    while i < perms.len()
        invariant
            i <= perms.len(),
            pv == perm_views(perms@),
            (perm_views(out@), code_views(rest@)) == attach_apis(pv.subrange(0, i as int), cv),
        decreases perms.len() - i,
    {
        let p = &perms[i];
        proof {
            assert(pv.subrange(0, i + 1).drop_last() =~= pv.subrange(0, i as int));
            assert(pv.subrange(0, i + 1).last() == pv[i as int]);
        }
        let api_ids = match find_code(&rest, p.code.as_str()) {
            Some(k) => {
                let (_, ids) = rest.remove(k);
                ids
            },
            None => p.api_ids.clone(),
        };
        out.push(
            PermAcc {
                name: p.name.clone(),
                code: p.code.clone(),
                module: p.module.clone(),
                menu_ids: p.menu_ids.clone(),
                api_ids,
                group_id: p.group_id,
            },
        );
        i += 1;
        proof {
            let at = attach_apis(pv.subrange(0, i as int), cv);
            assert(perm_views(out@) =~= at.0);
            assert(code_views(rest@) =~= at.1);
        }
    }
    assert(pv.subrange(0, perms.len() as int) =~= pv);
    (out, rest)
}

fn first_segment_of(code: &str) -> (r: String)
    ensures
        r@ == first_segment(code@),
{
    let parts = split_char_str(code, ':');
    proof {
        crate::text::lemma_split_nonempty(code@, ':');
    }
    parts[0].clone()
}

fn find_module(perms: &Vec<PermAcc>, code: &str) -> (r: String)
    ensures
        r@ == module_for(perm_views(perms@), code@),
{
    let ghost pv = perm_views(perms@);
    let head = first_segment_of(code);
    let mut i: usize = 0;
    proof {
        assert(pv.subrange(0, pv.len() as int) =~= pv);
    }
    while i < perms.len()
        invariant
            i <= perms.len(),
            pv == perm_views(perms@),
            head@ == first_segment(code@),
            module_for(pv.subrange(i as int, pv.len() as int), code@) == module_for(pv, code@),
        decreases perms.len() - i,
    {
        let ghost rest = pv.subrange(i as int, pv.len() as int);
        proof {
            assert(rest[0] == pv[i as int]);
            assert(rest.drop_first() =~= pv.subrange(i + 1, pv.len() as int));
        }
        let prefix = first_segment_of(perms[i].code.as_str());
        if starts_with(head.as_str(), prefix.as_str()) {
            return perms[i].module.clone();
        }
        i += 1;
    }
    String::from_str("uncategorized")
}

fn underscored(code: &str) -> (r: String)
    ensures
        r@ == colons_to_underscores(code@),
{
    let v = chars_of(code);
    let mut out = String::new();
    let mut i: usize = 0;
    while i < v.len()
        invariant
            i <= v.len(),
            v@ == code@,
            out@ == colons_to_underscores(code@).subrange(0, i as int),
        decreases v.len() - i,
    {
        let c = v[i];
        crate::text::push_char(&mut out, if c == ':' { '_' } else { c });
        i += 1;
        proof {
            assert(out@ =~= colons_to_underscores(code@).subrange(0, i as int));
        }
    }
    assert(colons_to_underscores(code@).subrange(0, v.len() as int) =~= colons_to_underscores(code@));
    out
}

fn extend_codes(perms: Vec<PermAcc>, codes: &Vec<(String, Vec<i64>)>) -> (r: Vec<PermAcc>)
    ensures
        perm_views(r@) == extend_with_codes(perm_views(perms@), code_views(codes@)),
{
    let ghost pv = perm_views(perms@);
    let ghost cv = code_views(codes@);
    let mut out = perms;
    let mut i: usize = 0;
    proof {
        assert(cv.subrange(0, 0) =~= Seq::<(Seq<char>, Seq<i64>)>::empty());
    }
    while i < codes.len()
        invariant
            i <= codes.len(),
            cv == code_views(codes@),
            perm_views(out@) == extend_with_codes(pv, cv.subrange(0, i as int)),
        decreases codes.len() - i,
    {
        let (code, ids) = &codes[i];
        proof {
            assert(cv.subrange(0, i + 1).drop_last() =~= cv.subrange(0, i as int));
            assert(cv.subrange(0, i + 1).last() == cv[i as int]);
        }
        let module = find_module(&out, code.as_str());
        let name = pascal_case(underscored(code.as_str()).as_str());
        out.push(
            PermAcc {
                name,
                code: code.clone(),
                module,
                menu_ids: Vec::new(),
                api_ids: ids.clone(),
                group_id: None,
            },
        );
        i += 1;
        proof {
            assert(perm_views(out@) =~= extend_with_codes(pv, cv.subrange(0, i as int)));
        }
    }
    assert(cv.subrange(0, codes.len() as int) =~= cv);
    out
}

/// The groups and permissions that a rebuild creates from the enabled menus
/// and APIs (each group's sort order is its position, from 1).
pub fn plan_sync(menus: &Vec<SyncMenu>, apis: &Vec<SyncApi>) -> (r: (Vec<(String, String)>, Vec<PermAcc>))
    ensures
        exists|order: Seq<usize>|
            stable_by_parent(parents_of(menus@), order) && (pair_views(r.0@), perm_views(r.1@))
                == sync_plan(menus@, order, apis@),
{
    let paths = compose_menu_paths(&menu_links(menus));
    let order = parent_order(menus);
    let (groups, perms) = plan_menus(menus, &paths, &order);
    let codes = collect_api_codes(apis);
    let (attached, rest) = attach(perms, codes);
    let all = extend_codes(attached, &rest);
    proof {
        assert(stable_by_parent(parents_of(menus@), order@));
        assert((pair_views(groups@), perm_views(all@)) == sync_plan(menus@, order@, apis@));
    }
    (groups, all)
}

/// The group of a module: the id of the last group created for it.
pub open spec fn group_for(groups: Seq<(Seq<char>, Seq<char>)>, gids: Seq<i64>, module: Seq<char>) -> Option<i64>
    decreases groups.len(),
{
    if groups.len() == 0 {
        None
    } else if groups.last().1 == module {
        Some(gids[groups.len() - 1])
    } else {
        group_for(groups.drop_last(), gids, module)
    }
}

fn find_group(groups: &Vec<(String, String)>, gids: &Vec<i64>, module: &str) -> (r: Option<i64>)
    requires
        gids.len() == groups.len(),
    ensures
        r == group_for(pair_views(groups@), gids@, module@),
{
    let ghost gv = pair_views(groups@);
    let mut i: usize = groups.len();
    proof {
        assert(gv.subrange(0, gv.len() as int) =~= gv);
    }
    while i > 0
        invariant
            i <= groups.len(),
            gids.len() == groups.len(),
            gv == pair_views(groups@),
            group_for(gv.subrange(0, i as int), gids@, module@) == group_for(gv, gids@, module@),
        decreases i,
    {
        let ghost pre = gv.subrange(0, i as int);
        proof {
            assert(pre.drop_last() =~= gv.subrange(0, i - 1));
            assert(pre.last() == gv[i - 1]);
        }
        if str_eq(groups[i - 1].1.as_str(), module) {
            return Some(gids[i - 1]);
        }
        i -= 1;
    }
    None
}

/// Gives each permission the group created for its module (`gids[i]` is the
/// id of `groups[i]`); a permission whose module has no group keeps none.
pub fn assign_groups(perms: &mut Vec<PermAcc>, groups: &Vec<(String, String)>, gids: &Vec<i64>)
    requires
        gids.len() == groups.len(),
    ensures
        final(perms).len() == old(perms).len(),
        forall|k: int|
            0 <= k < final(perms).len() ==> {
                let p = #[trigger] perm_view(final(perms)@[k]);
                let q = perm_view(old(perms)@[k]);
                &&& p.0 == q.0 && p.1 == q.1 && p.2 == q.2 && p.3 == q.3 && p.4 == q.4
                &&& p.5 == match group_for(pair_views(groups@), gids@, q.2) {
                    Some(g) => Some(g),
                    None => q.5,
                }
            },
{
    let mut i: usize = 0;
    while i < perms.len()
        invariant
            i <= perms.len(),
            perms.len() == old(perms).len(),
            gids.len() == groups.len(),
            forall|k: int|
                i <= k < perms.len() ==> #[trigger] perm_view(perms@[k]) == perm_view(old(perms)@[k]),
            forall|k: int|
                0 <= k < i ==> {
                    let p = #[trigger] perm_view(perms@[k]);
                    let q = perm_view(old(perms)@[k]);
                    &&& p.0 == q.0 && p.1 == q.1 && p.2 == q.2 && p.3 == q.3 && p.4 == q.4
                    &&& p.5 == match group_for(pair_views(groups@), gids@, q.2) {
                        Some(g) => Some(g),
                        None => q.5,
                    }
                },
        decreases perms.len() - i,
    {
        let g = find_group(groups, gids, perms[i].module.as_str());
        let ghost prev = perms@;
        if let Some(gid) = g {
            let mut p = perms.remove(i);
            p.group_id = Some(gid);
            perms.insert(i, p);
            proof {
                assert(perms@ =~= prev.update(i as int, p));
            }
        }
        proof {
            assert(perm_view(prev[i as int]) == perm_view(old(perms)@[i as int]));
        }
        i += 1;
    }
}

/// A permission group that a sync writes.
pub struct GroupNew {
    pub name: String,
    pub module: String,
    /// The group's place in the plan, from 1.
    pub sort_order: i64,
    pub status: String,
}

/// The groups of a sync plan as written: each with its name and module, its
/// position in the plan plus one as its sort order, and status `ON`.
pub fn group_rows(groups: &Vec<(String, String)>) -> (r: Vec<GroupNew>)
    requires
        groups.len() < i64::MAX,
    ensures
        r.len() == groups.len(),
        forall|i: int| 0 <= i < groups.len() ==> {
            &&& (#[trigger] r@[i]).name@ == groups@[i].0@
            &&& r@[i].module@ == groups@[i].1@
            &&& r@[i].sort_order == i + 1
            &&& r@[i].status@ == "ON"@
        },
{
    let mut r: Vec<GroupNew> = Vec::new();
    let mut i: usize = 0;
    while i < groups.len()
        invariant
            i <= groups.len(),
            groups.len() < i64::MAX,
            r.len() == i,
            forall|j: int| 0 <= j < i ==> {
                &&& (#[trigger] r@[j]).name@ == groups@[j].0@
                &&& r@[j].module@ == groups@[j].1@
                &&& r@[j].sort_order == j + 1
                &&& r@[j].status@ == "ON"@
            },
        decreases groups.len() - i,
    {
        r.push(
            GroupNew {
                name: groups[i].0.clone(),
                module: groups[i].1.clone(),
                sort_order: i as i64 + 1,
                status: String::from_str("ON"),
            },
        );
        i += 1;
    }
    r
}

/// A sync keeps the system permissions (code `sys:...`) and replaces the
/// others.
pub fn kept_by_sync(code: &str) -> (r: bool)
    ensures
        r == has_prefix(code@, "sys:"@),
{
    starts_with(code, "sys:")
}

/// A sync keeps the system groups (module `sys`) and replaces the others.
pub fn group_kept_by_sync(module: Option<&str>) -> (r: bool)
    ensures
        r == (module matches Some(m) && m@ == "sys"@),
{
    match module {
        Some(m) => crate::text::str_eq(m, "sys"),
        None => false,
    }
}

/// Writing an API's resource by PUT is editing it, as by PATCH (any case of
/// the method): for a path with a resource that is not a `/list` route, the
/// code is the resource followed by `:edit`.
pub proof fn lemma_put_and_patch_edit(method: Seq<char>, path: Seq<char>)
    requires
        resource_spec(path).len() > 0,
        !has_suffix(path, "/list"@),
        ascii_upper(method) == "PUT"@ || ascii_upper(method) == "PATCH"@,
    ensures
        api_code_spec(method, path) == resource_spec(path) + ":edit"@,
        api_code_spec(method, path) == api_code_spec("PATCH"@, path),
        api_code_spec(method, path) == api_code_spec("put"@, path),
{
    reveal_strlit("PUT");
    reveal_strlit("PATCH");
    reveal_strlit("put");
    reveal_strlit("GET");
    reveal_strlit("POST");
    reveal_strlit(":edit");
    reveal_strlit(":");
    reveal_strlit("edit");
    assert(":"@ + "edit"@ =~= ":edit"@);
    assert(ascii_upper("PATCH"@) =~= "PATCH"@);
    assert(ascii_upper("put"@) =~= "PUT"@);
    let r = resource_spec(path);
    assert(r + ":"@ + "edit"@ =~= r + ":edit"@);
    assert("PUT"@.len() == 3 && "GET"@.len() == 3 && "POST"@.len() == 4 && "PATCH"@.len() == 5);
    assert("PUT"@[1] == 'U' && "GET"@[1] == 'E');
    let m = ascii_upper(method);
    assert(m != "GET"@);
    assert(m != "POST"@);
    assert("PATCH"@ != "GET"@ && "PATCH"@ != "POST"@ && "PATCH"@ != "PUT"@);
}

/// The action of an API code by method: GET and `/list` routes view, POST
/// creates, PUT and PATCH edit, DELETE deletes (methods in any case); any
/// other method, or a path without a resource, gives no code.
pub proof fn lemma_api_code_actions(method: Seq<char>, path: Seq<char>)
    ensures
        resource_spec(path).len() == 0 ==> api_code_spec(method, path).len() == 0,
        resource_spec(path).len() > 0 && (has_suffix(path, "/list"@) || ascii_upper(method) == "GET"@)
            ==> api_code_spec(method, path) == resource_spec(path) + ":view"@,
        resource_spec(path).len() > 0 && !has_suffix(path, "/list"@) && ascii_upper(method) == "POST"@
            ==> api_code_spec(method, path) == resource_spec(path) + ":create"@,
        resource_spec(path).len() > 0 && !has_suffix(path, "/list"@) && ascii_upper(method) == "DELETE"@
            ==> api_code_spec(method, path) == resource_spec(path) + ":delete"@,
        resource_spec(path).len() > 0 && !has_suffix(path, "/list"@) && !(ascii_upper(method) == "GET"@
            || ascii_upper(method) == "POST"@ || ascii_upper(method) == "PUT"@ || ascii_upper(method)
            == "PATCH"@ || ascii_upper(method) == "DELETE"@) ==> api_code_spec(method, path).len() == 0,
{
    reveal_strlit(":");
    reveal_strlit("view");
    reveal_strlit(":view");
    reveal_strlit("create");
    reveal_strlit(":create");
    reveal_strlit("delete");
    reveal_strlit(":delete");
    reveal_strlit("GET");
    reveal_strlit("POST");
    reveal_strlit("DELETE");
    let r = resource_spec(path);
    assert(r + ":"@ + "view"@ =~= r + ":view"@);
    assert(r + ":"@ + "create"@ =~= r + ":create"@);
    assert(r + ":"@ + "delete"@ =~= r + ":delete"@);
    reveal_strlit("PUT");
    reveal_strlit("PATCH");
    assert("GET"@.len() == 3 && "POST"@.len() == 4 && "DELETE"@.len() == 6 && "PUT"@.len() == 3
        && "PATCH"@.len() == 5);
}

} // verus!
