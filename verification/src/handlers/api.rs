//! API resources: a route (path and method) with its module, business
//! module (stored without the `MODULE_` prefix), scope (ADMIN/APP) and status
//! (ON/OFF). A path and method pair is unique.

use vstd::prelude::*;
use vstd::string::*;
use crate::handlers::upsert::Upsert;
use crate::error::{AppError, is_validation};
use crate::handlers::{blank, is_blank, normalize_upper, trimmed, trimmed_or_empty, upper_enum};
use crate::text::{ascii_upper, ascii_lower, upper_char, lower_char, has_prefix, trim, trim_str, cat, cat3, to_ascii_upper, strip_prefix, str_eq};

verus! {

pub struct ApiDto {
    pub id: i64,
    pub operation: Option<String>,
    pub path: Option<String>,
    pub method: Option<String>,
    pub module: Option<String>,
    pub module_description: Option<String>,
    /// The proto enum name (`MODULE_DASHBOARD` and the like).
    pub business_module: Option<String>,
    pub description: Option<String>,
    /// ADMIN | APP
    pub scope: Option<String>,
    /// ON | OFF
    pub status: Option<String>,
    pub created_by: Option<i64>,
    pub updated_by: Option<i64>,
    pub deleted_by: Option<i64>,
    pub created_at: Option<String>,
    pub updated_at: Option<String>,
    pub deleted_at: Option<String>,
}

/// A stored API; the business module is stored without its prefix.
pub struct ApiRow {
    pub id: i64,
    pub operation: Option<String>,
    pub path: Option<String>,
    pub method: Option<String>,
    pub module: Option<String>,
    pub module_description: Option<String>,
    pub business_module: Option<String>,
    pub description: Option<String>,
    pub scope: Option<String>,
    pub status: Option<String>,
    pub created_by: Option<i64>,
    pub updated_by: Option<i64>,
    pub deleted_by: Option<i64>,
    pub created_at: Option<String>,
    pub updated_at: Option<String>,
    pub deleted_at: Option<String>,
}

pub struct ApiData {
    pub operation: Option<String>,
    pub path: Option<String>,
    pub method: Option<String>,
    pub module: Option<String>,
    pub module_description: Option<String>,
    pub business_module: Option<String>,
    pub description: Option<String>,
    pub scope: Option<String>,
    pub status: Option<String>,
}

pub struct CreateApiBody {
    pub data: Option<ApiData>,
}

pub struct UpdateApiBody {
    pub id: Option<i64>,
    pub data: Option<ApiData>,
    pub allow_missing: Option<bool>,
}

/// The proto enum name of a stored business module.
pub fn module_from_db(v: &str) -> (r: String)
    ensures
        r@ == "MODULE_"@ + v@,
{
    cat("MODULE_", v)
}

pub fn to_dto(row: &ApiRow) -> (d: ApiDto)
    ensures
        d.id == row.id,
        d.operation == row.operation,
        d.path == row.path,
        d.method == row.method,
        d.module == row.module,
        d.module_description == row.module_description,
        match row.business_module {
            Some(m) => d.business_module matches Some(x) && x@ == "MODULE_"@ + m@,
            None => d.business_module is None,
        },
        d.description == row.description,
        d.scope == row.scope,
        d.status == row.status,
        d.created_by == row.created_by,
        d.updated_by == row.updated_by,
        d.deleted_by == row.deleted_by,
        d.created_at == row.created_at,
        d.updated_at == row.updated_at,
        d.deleted_at == row.deleted_at,
{
    ApiDto {
        id: row.id,
        operation: row.operation.clone(),
        path: row.path.clone(),
        method: row.method.clone(),
        module: row.module.clone(),
        module_description: row.module_description.clone(),
        business_module: match &row.business_module {
            Some(m) => Some(module_from_db(m.as_str())),
            None => None,
        },
        description: row.description.clone(),
        scope: row.scope.clone(),
        status: row.status.clone(),
        created_by: row.created_by,
        updated_by: row.updated_by,
        deleted_by: row.deleted_by,
        created_at: row.created_at.clone(),
        updated_at: row.updated_at.clone(),
        deleted_at: row.deleted_at.clone(),
    }
}

/// The business modules that can be stored.
pub open spec fn module_known(n: Seq<char>) -> bool {
    n == "DASHBOARD"@ || n == "OPM"@ || n == "SYSTEM"@ || n == "DICT"@ || n == "TENANT"@ || n
        == "PERMISSION"@ || n == "LOG"@ || n == "INTERNAL_MESSAGE"@ || n == "FILE"@ || n == "TASK"@
}

/// The upper-cased module name without its `MODULE_` prefix.
pub open spec fn module_name(v: Seq<char>) -> Seq<char> {
    let up = ascii_upper(v);
    if has_prefix(up, "MODULE_"@) {
        up.subrange(7, up.len() as int)
    } else {
        up
    }
}

/// The stored form of a business module: none for the unset value (empty or
/// UNSPECIFIED), the name of a known module, else the validation error.
pub open spec fn module_db(v: Seq<char>) -> Result<Option<Seq<char>>, Seq<char>> {
    let n = module_name(v);
    if n.len() == 0 || n == "UNSPECIFIED"@ {
        Ok(None)
    } else if module_known(n) {
        Ok(Some(n))
    } else {
        Err("invalid api business module: "@ + v)
    }
}

pub open spec fn view_opt(o: Option<String>) -> Option<Seq<char>> {
    match o {
        Some(x) => Some(x@),
        None => None,
    }
}

pub fn module_to_db(v: &str) -> (r: Result<Option<String>, AppError>)
    ensures
        match module_db(v@) {
            Ok(m) => r matches Ok(x) && view_opt(x) == m,
            Err(m) => r matches Err(e) && is_validation(e, m),
        },
{
    proof {
        reveal_strlit("MODULE_");
    }
    let up = to_ascii_upper(v);
    let name = match strip_prefix(up.as_str(), "MODULE_") {
        Some(n) => n,
        None => up,
    };
    let n = name.as_str();
    if n.unicode_len() == 0 || str_eq(n, "UNSPECIFIED") {
        return Ok(None);
    }
    if str_eq(n, "DASHBOARD") || str_eq(n, "OPM") || str_eq(n, "SYSTEM") || str_eq(n, "DICT")
        || str_eq(n, "TENANT") || str_eq(n, "PERMISSION") || str_eq(n, "LOG") || str_eq(
        n,
        "INTERNAL_MESSAGE",
    ) || str_eq(n, "FILE") || str_eq(n, "TASK") {
        return Ok(Some(name));
    }
    Err(AppError::Validation(cat("invalid api business module: ", v)))
}

/// A name made of upper-case ASCII letters and underscores.
pub open spec fn upper_word(s: Seq<char>) -> bool {
    forall|i: int| 0 <= i < s.len() ==> ('A' <= #[trigger] s[i] && s[i] <= 'Z') || s[i] == '_'
}

proof fn lemma_upper_word_cases(s: Seq<char>)
    requires
        upper_word(s),
    ensures
        ascii_upper(s) == s,
        ascii_upper(ascii_lower(s)) == s,
{
    assert(ascii_upper(s) =~= s);
    assert forall|i: int| 0 <= i < s.len() implies #[trigger] upper_char(lower_char(s[i])) == s[i] by {
        let c = s[i];
        if 'A' <= c && c <= 'Z' {
            let l = ((c as u32) + 32) as char;
            assert(l as u32 == (c as u32) + 32);
            assert('a' <= l && l <= 'z');
            assert((((l as u32) - 32) as char) == c);
        }
    }
    assert(ascii_upper(ascii_lower(s)) =~= s);
}

proof fn lemma_known_modules(m: Seq<char>)
    requires
        module_known(m),
    ensures
        upper_word(m),
        m.len() > 0,
        m.len() != 11,
        m[0] != 'M',
{
    reveal_strlit("DASHBOARD");
    reveal_strlit("OPM");
    reveal_strlit("SYSTEM");
    reveal_strlit("DICT");
    reveal_strlit("TENANT");
    reveal_strlit("PERMISSION");
    reveal_strlit("LOG");
    reveal_strlit("INTERNAL_MESSAGE");
    reveal_strlit("FILE");
    reveal_strlit("TASK");
}

/// The stored form of a known business module comes back from its proto
/// name (`MODULE_` and the name, in any case) and from the bare name; the
/// unset values store nothing.
pub proof fn lemma_module_roundtrip(m: Seq<char>)
    requires
        module_known(m),
    ensures
        module_db("MODULE_"@ + m) == Ok::<Option<Seq<char>>, Seq<char>>(Some(m)),
        module_db(ascii_lower("MODULE_"@ + m)) == Ok::<Option<Seq<char>>, Seq<char>>(Some(m)),
        module_db(m) == Ok::<Option<Seq<char>>, Seq<char>>(Some(m)),
        module_db("MODULE_UNSPECIFIED"@) == Ok::<Option<Seq<char>>, Seq<char>>(None),
        module_db(Seq::<char>::empty()) == Ok::<Option<Seq<char>>, Seq<char>>(None),
{
    reveal_strlit("MODULE_");
    reveal_strlit("MODULE_UNSPECIFIED");
    reveal_strlit("UNSPECIFIED");
    lemma_known_modules(m);
    let p = "MODULE_"@;
    let full = p + m;
    assert(upper_word(full)) by {
        assert forall|i: int| 0 <= i < full.len() implies ('A' <= #[trigger] full[i] && full[i] <= 'Z')
            || full[i] == '_' by {
            if i >= 7 {
                assert(full[i] == m[i - 7]);
            }
        }
    }
    lemma_upper_word_cases(full);
    lemma_upper_word_cases(m);
    assert(full.subrange(0, 7) =~= p);
    assert(full.subrange(7, full.len() as int) =~= m);
    assert(module_name(full) == m);
    assert(module_name(ascii_lower(full)) == m);
    assert(!has_prefix(m, p)) by {
        if has_prefix(m, p) {
            assert(m.subrange(0, 7)[0] == m[0]);
        }
    }
    assert(module_name(m) == m);
    assert(m != "UNSPECIFIED"@);
    let u = "MODULE_UNSPECIFIED"@;
    assert(upper_word(u));
    lemma_upper_word_cases(u);
    assert(u.subrange(0, 7) =~= p);
    assert(u.subrange(7, u.len() as int) =~= "UNSPECIFIED"@);
    assert(ascii_upper(Seq::<char>::empty()) =~= Seq::<char>::empty());
}

pub open spec fn scope_ok(u: Seq<char>) -> bool {
    u == "ADMIN"@ || u == "APP"@
}

pub open spec fn status_ok(u: Seq<char>) -> bool {
    u == "ON"@ || u == "OFF"@
}

pub fn normalize_scope(v: &str) -> (r: Result<String, AppError>)
    ensures
        upper_enum(r, v@, |u: Seq<char>| scope_ok(u), "invalid api scope: "@),
{
    normalize_upper(v, &["ADMIN", "APP"], "invalid api scope: ")
}

pub fn normalize_status(v: &str) -> (r: Result<String, AppError>)
    ensures
        upper_enum(r, v@, |u: Seq<char>| status_ok(u), "invalid api status: "@),
{
    normalize_upper(v, &["ON", "OFF"], "invalid api status: ")
}

/// The error of validating API data, if any: a given scope, status and
/// business module must be known.
pub open spec fn validation_error(data: ApiData) -> Option<Seq<char>> {
    if data.scope matches Some(s) && !scope_ok(ascii_upper(s@)) {
        Some("invalid api scope: "@ + data.scope.unwrap()@)
    } else if data.status matches Some(s) && !status_ok(ascii_upper(s@)) {
        Some("invalid api status: "@ + data.status.unwrap()@)
    } else if data.business_module matches Some(m) && module_db(m@) is Err {
        Some(module_db(data.business_module.unwrap()@)->Err_0)
    } else {
        None
    }
}

pub fn validate_data(data: &ApiData) -> (r: Result<(), AppError>)
    ensures
        match validation_error(*data) {
            Some(m) => r matches Err(e) && is_validation(e, m),
            None => r is Ok,
        },
{
    if let Some(s) = &data.scope {
        normalize_scope(s.as_str())?;
    }
    if let Some(s) = &data.status {
        normalize_status(s.as_str())?;
    }
    if let Some(m) = &data.business_module {
        module_to_db(m.as_str())?;
    }
    Ok(())
}

/// The stored form of the data's business module (none when absent).
pub open spec fn module_value(data: ApiData) -> Option<Seq<char>> {
    match data.business_module {
        Some(m) => match module_db(m@) {
            Ok(x) => x,
            Err(_) => None,
        },
        None => None,
    }
}

pub open spec fn upper_or(o: Option<String>, dflt: Seq<char>) -> Seq<char> {
    match o {
        Some(x) => ascii_upper(x@),
        None => dflt,
    }
}

pub open spec fn upper_opt(o: Option<String>) -> Option<Seq<char>> {
    match o {
        Some(x) => Some(ascii_upper(x@)),
        None => None,
    }
}

/// The normalised fields of an API that is written.
pub struct ApiFields {
    pub path: Option<String>,
    pub method: Option<String>,
    pub business_module: Option<String>,
    pub scope: Option<String>,
    pub status: Option<String>,
}

fn module_of(data: &ApiData) -> (r: Option<String>)
    requires
        validation_error(*data) is None,
    ensures
        view_opt(r) == module_value(*data),
{
    match &data.business_module {
        Some(m) => match module_to_db(m.as_str()) {
            Ok(x) => x,
            Err(_) => None,
        },
        None => None,
    }
}

fn upper_of(o: &Option<String>) -> (r: Option<String>)
    ensures
        view_opt(r) == upper_opt(*o),
{
    match o {
        Some(x) => Some(to_ascii_upper(x.as_str())),
        None => None,
    }
}

/// The fields of a new API: the data is valid, and a path and a method that
/// are not blank are required (stored trimmed); scope ADMIN and status ON by
/// default.
pub fn create_fields(data: &ApiData) -> (r: Result<ApiFields, AppError>)
    ensures
        match validation_error(*data) {
            Some(m) => r matches Err(e) && is_validation(e, m),
            None => if blank(data.path) || blank(data.method) {
                r matches Err(e) && is_validation(e, "path and method are required"@)
            } else {
                r matches Ok(f) && view_opt(f.path) == Some(trimmed_or_empty(data.path)) && view_opt(
                    f.method,
                ) == Some(trimmed_or_empty(data.method)) && view_opt(f.business_module)
                    == module_value(*data) && view_opt(f.scope) == Some(upper_or(data.scope, "ADMIN"@))
                    && view_opt(f.status) == Some(upper_or(data.status, "ON"@))
            },
        },
{
    validate_data(data)?;
    if is_blank(&data.path) || is_blank(&data.method) {
        return Err(AppError::Validation(String::from_str("path and method are required")));
    }
    let scope = match &data.scope {
        Some(s) => to_ascii_upper(s.as_str()),
        None => String::from_str("ADMIN"),
    };
    let status = match &data.status {
        Some(s) => to_ascii_upper(s.as_str()),
        None => String::from_str("ON"),
    };
    Ok(
        ApiFields {
            path: Some(trimmed(&data.path)),
            method: Some(trimmed(&data.method)),
            business_module: module_of(data),
            scope: Some(scope),
            status: Some(status),
        },
    )
}

/// The trimmed value of a given field.
pub open spec fn trim_opt(o: Option<String>) -> Option<Seq<char>> {
    match o {
        Some(x) => Some(trim(x@)),
        None => None,
    }
}

/// The fields of an update: the data is valid, and a given path or method
/// must not be blank (each is stored trimmed); absent fields are kept.
pub fn update_fields(data: &ApiData) -> (r: Result<ApiFields, AppError>)
    ensures
        match validation_error(*data) {
            Some(m) => r matches Err(e) && is_validation(e, m),
            None => if data.path is Some && blank(data.path) {
                r matches Err(e) && is_validation(e, "path is required"@)
            } else if data.method is Some && blank(data.method) {
                r matches Err(e) && is_validation(e, "method is required"@)
            } else {
                r matches Ok(f) && view_opt(f.path) == trim_opt(data.path) && view_opt(f.method)
                    == trim_opt(data.method) && view_opt(f.business_module) == module_value(*data)
                    && view_opt(f.scope) == upper_opt(data.scope) && view_opt(f.status) == upper_opt(
                    data.status,
                )
            },
        },
{
    validate_data(data)?;
    let path = match &data.path {
        Some(p) => {
            let t = trim_str(p.as_str());
            if t.unicode_len() == 0 {
                return Err(AppError::Validation(String::from_str("path is required")));
            }
            Some(t)
        },
        None => None,
    };
    let method = match &data.method {
        Some(m) => {
            let t = trim_str(m.as_str());
            if t.unicode_len() == 0 {
                return Err(AppError::Validation(String::from_str("method is required")));
            }
            Some(t)
        },
        None => None,
    };
    Ok(
        ApiFields {
            path,
            method,
            business_module: module_of(data),
            scope: upper_of(&data.scope),
            status: upper_of(&data.status),
        },
    )
}

/// The conflict of an endpoint that exists already (method and path as
/// given).
pub fn endpoint_conflict(method: &str, path: &str) -> (r: AppError)
    ensures
        r matches AppError::Conflict(m) && m@ == "api endpoint already exists: "@ + method@ + " "@
            + path@,
{
    AppError::Conflict(cat3(cat("api endpoint already exists: ", method).as_str(), " ", path))
}

/// The unique checks of an API write: the endpoint (method and path) when
/// both are written, answered with `endpoint_conflict`.
pub open spec fn endpoint_checks(f: ApiFields) -> Seq<Seq<char>> {
    match (f.path, f.method) {
        (Some(p), Some(m)) => seq!["api endpoint already exists: "@ + m@ + " "@ + p@],
        _ => Seq::<Seq<char>>::empty(),
    }
}

/// The unique checks of an API write (see `endpoint_checks`).
pub fn endpoint_check_list(f: &ApiFields) -> (r: Vec<String>)
    ensures
        r@.map_values(|m: String| m@) == endpoint_checks(*f),
{
    let mut r: Vec<String> = Vec::new();
    match (&f.path, &f.method) {
        (Some(p), Some(m)) => {
            match endpoint_conflict(m.as_str(), p.as_str()) {
                AppError::Conflict(x) => r.push(x),
                _ => {},
            }
        },
        _ => {},
    }
    proof {
        assert(r@.map_values(|m: String| m@) =~= endpoint_checks(*f));
    }
    r
}

/// The conversation of an update request (see `Upsert`): on `Validate`
/// the caller computes the values of the chosen path and their checks with
/// `endpoint_check_list`; an update of no row is answered `api not found`.
pub fn api_conversation(allow_missing: bool) -> (r: Upsert)
    ensures
        r.allow_missing == allow_missing,
        r.not_found@ == "api not found"@,
{
    Upsert { allow_missing, not_found: String::from_str("api not found") }
}

} // verus!
