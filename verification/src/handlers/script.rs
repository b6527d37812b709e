//! Scripts: a name, a source and a language (LUA, or JAVASCRIPT also
//! written JS) bound to a hook point.

use vstd::prelude::*;
use vstd::string::*;
use crate::handlers::upsert::{Upsert, check_of, opt_view, value_checks};
use crate::error::{AppError, is_validation};
use crate::handlers::{blank, is_blank, member};
use crate::text::{ascii_upper, to_ascii_upper, cat, trim, trim_str, split_char, split_char_str, parse_i64, parse_i64_spec, views};

verus! {

pub struct ScriptDto {
    pub id: i64,
    pub name: String,
    pub language: String,
    pub hook_point: Option<String>,
    pub source: String,
    pub priority: i64,
    pub description: Option<String>,
    pub critical: bool,
    pub version: i64,
    pub is_enabled: bool,
    pub created_by: Option<i64>,
    pub updated_by: Option<i64>,
    pub created_at: Option<String>,
    pub updated_at: Option<String>,
}

pub struct ScriptData {
    pub name: Option<String>,
    pub language: Option<String>,
    pub hook_point: Option<String>,
    pub source: Option<String>,
    pub priority: Option<i64>,
    pub description: Option<String>,
    pub critical: Option<bool>,
    pub is_enabled: Option<bool>,
}

pub struct CreateScriptBody {
    pub data: Option<ScriptData>,
}

pub struct UpdateScriptBody {
    pub id: Option<i64>,
    pub data: Option<ScriptData>,
    pub allow_missing: Option<bool>,
}

pub struct ScriptDeleteQuery {
    pub ids: Option<String>,
}

/// A stored script.
pub struct ScriptRow {
    pub id: i64,
    pub name: String,
    pub language: String,
    pub hook_point: Option<String>,
    pub source: String,
    pub priority: i64,
    pub description: Option<String>,
    pub critical: bool,
    pub version: i64,
    pub is_enabled: bool,
    pub created_by: Option<i64>,
    pub updated_by: Option<i64>,
    pub created_at: Option<String>,
    pub updated_at: Option<String>,
}

pub fn to_dto(row: &ScriptRow) -> (d: ScriptDto)
    ensures
        d.id == row.id,
        d.name == row.name,
        d.language == row.language,
        d.hook_point == row.hook_point,
        d.source == row.source,
        d.priority == row.priority,
        d.description == row.description,
        d.critical == row.critical,
        d.version == row.version,
        d.is_enabled == row.is_enabled,
        d.created_by == row.created_by,
        d.updated_by == row.updated_by,
        d.created_at == row.created_at,
        d.updated_at == row.updated_at,
{
    ScriptDto {
        id: row.id,
        name: row.name.clone(),
        language: row.language.clone(),
        hook_point: row.hook_point.clone(),
        source: row.source.clone(),
        priority: row.priority,
        description: row.description.clone(),
        critical: row.critical,
        version: row.version,
        is_enabled: row.is_enabled,
        created_by: row.created_by,
        updated_by: row.updated_by,
        created_at: row.created_at.clone(),
        updated_at: row.updated_at.clone(),
    }
}


/// The language a script language name denotes (any ASCII case).
pub open spec fn language_of(u: Seq<char>) -> Option<Seq<char>> {
    if u == "LUA"@ {
        Some("LUA"@)
    } else if u == "JAVASCRIPT"@ || u == "JS"@ {
        Some("JAVASCRIPT"@)
    } else {
        None
    }
}

pub fn normalize_language(lang: &str) -> (r: Result<String, AppError>)
    ensures
        match language_of(ascii_upper(lang@)) {
            Some(l) => r matches Ok(x) && x@ == l,
            None => r matches Err(e) && is_validation(
                e,
                "unsupported script language: "@ + ascii_upper(lang@),
            ),
        },
{
    let up = to_ascii_upper(lang);
    if member(up.as_str(), &["LUA"]) {
        Ok(String::from_str("LUA"))
    } else if member(up.as_str(), &["JAVASCRIPT", "JS"]) {
        Ok(String::from_str("JAVASCRIPT"))
    } else {
        Err(AppError::Validation(cat("unsupported script language: ", up.as_str())))
    }
}

/// The language a draft is in: LUA when absent.
pub open spec fn draft_language(data: ScriptData) -> Seq<char> {
    match data.language {
        Some(l) => l@,
        None => "LUA"@,
    }
}

/// A draft needs a name and a source, and a known language (LUA by default).
pub fn validate_draft(data: &ScriptData) -> (r: Result<(), AppError>)
    ensures
        blank(data.name) ==> (r matches Err(e) && is_validation(e, "script name is required"@)),
        !blank(data.name) && blank(data.source) ==> (r matches Err(e) && is_validation(
            e,
            "script source is required"@,
        )),
        !blank(data.name) && !blank(data.source) ==> match language_of(
            ascii_upper(draft_language(*data)),
        ) {
            Some(_) => r is Ok,
            None => r matches Err(e) && is_validation(
                e,
                "unsupported script language: "@ + ascii_upper(draft_language(*data)),
            ),
        },
{
    if is_blank(&data.name) {
        return Err(AppError::Validation(String::from_str("script name is required")));
    }
    if is_blank(&data.source) {
        return Err(AppError::Validation(String::from_str("script source is required")));
    }
    match &data.language {
        Some(l) => {
            normalize_language(l.as_str())?;
        },
        None => {
            normalize_language("LUA")?;
        },
    }
    Ok(())
}

/// The ids that the comma-separated segments spell once trimmed, skipping
/// segments that are not integers.
pub open spec fn parsed_ids(segs: Seq<Seq<char>>) -> Seq<i64>
    decreases segs.len(),
{
    if segs.len() == 0 {
        Seq::<i64>::empty()
    } else {
        let p = parsed_ids(segs.drop_last());
        match parse_i64_spec(trim(segs.last())) {
            Some(id) => p.push(id),
            None => p,
        }
    }
}

/// The ids of a delete (`?ids=1,2`): every comma-separated integer; none is an error.
pub fn delete_ids(raw: Option<&str>) -> (r: Result<Vec<i64>, AppError>)
    ensures
        ({
            let ids = parsed_ids(
                split_char(
                    match raw {
                        Some(s) => s@,
                        None => Seq::<char>::empty(),
                    },
                    ',',
                ),
            );
            if ids.len() == 0 {
                r matches Err(e) && is_validation(e, "ids is required"@)
            } else {
                r matches Ok(v) && v@ == ids
            }
        }),
{
    let text = match raw {
        Some(s) => String::from_str(s),
        None => String::new(),
    };
    let segs = split_char_str(text.as_str(), ',');
    let mut ids: Vec<i64> = Vec::new();
    let mut i: usize = 0;
    assert(views(segs@).subrange(0, 0) =~= Seq::<Seq<char>>::empty());
    while i < segs.len()
        invariant
            i <= segs.len(),
            ids@ == parsed_ids(views(segs@).subrange(0, i as int)),
        decreases segs.len() - i,
    {
        let t = trim_str(segs[i].as_str());
        let ghost pre = views(segs@).subrange(0, i as int);
        assert(views(segs@).subrange(0, i + 1).drop_last() =~= pre);
        assert(views(segs@).subrange(0, i + 1).last() == segs@[i as int]@);
        if let Some(id) = parse_i64(t.as_str()) {
            ids.push(id);
        }
        i += 1;
    }
    assert(views(segs@).subrange(0, segs.len() as int) =~= views(segs@));
    if ids.len() == 0 {
        return Err(AppError::Validation(String::from_str("ids is required")));
    }
    Ok(ids)
}

/// The hook-point listing: no registered hook points, and the two languages.
pub fn hook_languages() -> (r: Vec<String>)
    ensures
        r@.len() == 2,
        r@[0]@ == "lua"@,
        r@[1]@ == "javascript"@,
{
    let mut v: Vec<String> = Vec::new();
    v.push(String::from_str("lua"));
    v.push(String::from_str("javascript"));
    v
}


/// The unique check of a script write: its trimmed name, when written.
pub fn script_checks(name: Option<&str>) -> (r: Vec<String>)
    ensures
        r@.map_values(|m: String| m@) == check_of("script name already exists: "@, opt_view(name)),
{
    let r = value_checks("script name already exists: ", name, "", None);
    proof {
        assert(check_of("script name already exists: "@, opt_view(name)) + Seq::<Seq<char>>::empty()
            =~= check_of("script name already exists: "@, opt_view(name)));
    }
    r
}

/// The conversation of an update request (see `Upsert`); an update of no
/// row is answered `script not found`.
pub fn script_conversation(allow_missing: bool) -> (r: Upsert)
    ensures
        r.allow_missing == allow_missing,
        r.not_found@ == "script not found"@,
{
    Upsert { allow_missing, not_found: String::from_str("script not found") }
}

} // verus!
