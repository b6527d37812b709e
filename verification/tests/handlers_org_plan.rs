use backendr::error::AppError;
use backendr::handlers::org_unit::{
    code_conflict, create_values, listing_order, name_conflict, normalize_type, update_values,
    validate_data, OrgUnitFields,
};
use backendr::handlers::permission_group::{
    build_tree, PermissionGroupRow, create_values as group_create, update_values as group_update, PermissionGroupData,
    PermissionGroupDto,
};
use backendr::handlers::plan::{
    create_fields, delete_ids, normalize_expiry_policy, normalize_version, update_fields, PlanData,
};
use backendr::handlers::plan_module::{normalize_module, normalized_module, PlanModuleData};
use backendr::handlers::plan_quota::{
    normalize_quota_type, normalized_quota_value, to_dto as quota_dto, PlanQuotaData, PlanQuotaRow,
    QuotaValueInput,
};

fn s(x: &str) -> String {
    x.to_string()
}

fn verr<T>(r: Result<T, AppError>) -> String {
    match r {
        Err(AppError::Validation(m)) => m,
        Err(e) => panic!("expected a validation error, got {:?}", e),
        Ok(_) => panic!("expected a validation error, got Ok"),
    }
}

fn org(name: Option<&str>, code: Option<&str>, ty: Option<&str>, status: Option<&str>, tenant: Option<i64>) -> OrgUnitFields {
    OrgUnitFields { name: name.map(s), code: code.map(s), type_: ty.map(s), status: status.map(s), tenant_id: tenant }
}

#[test]
fn org_units() {
    assert_eq!(normalize_type("team").unwrap(), "TEAM");
    assert_eq!(verr(validate_data(&org(None, None, None, None, None))), "org unit name is required");
    assert_eq!(verr(validate_data(&org(Some("a"), None, Some("x"), None, None))), "invalid org unit type: x");
    assert_eq!(verr(validate_data(&org(Some("a"), None, None, Some("y"), None))), "invalid org unit status: y");
    let v = create_values(&org(Some(" R&D "), Some(" rd "), Some("department"), Some("on"), None), 5).unwrap();
    assert_eq!(v.name, Some(s("R&D")));
    assert_eq!(v.code, Some(s(" rd ")));
    assert_eq!(v.code_check, Some(s("rd")));
    assert_eq!(v.tenant_id, Some(5));
    assert_eq!(v.type_, Some(s("DEPARTMENT")));
    assert_eq!(v.status, Some(s("ON")));
    assert_eq!(create_values(&org(Some("a"), None, None, None, None), 0).unwrap().tenant_id, None);
    assert_eq!(create_values(&org(Some("a"), None, None, None, Some(9)), 5).unwrap().tenant_id, Some(9));
    assert_eq!(verr(update_values(&org(None, Some(" c "), None, None, None))), "org unit name is required");
    let u = update_values(&org(Some(" n "), Some(" c "), None, Some("off"), Some(3))).unwrap();
    assert_eq!(u.name, Some(s("n")));
    assert_eq!(u.code, Some(s("c")));
    assert_eq!(u.status, Some(s("OFF")));
    assert_eq!(u.tenant_id, None);
    assert_eq!(verr(update_values(&org(Some(" "), None, None, None, None))), "org unit name is required");
    let w = update_values(&org(None, None, Some("team"), None, None)).unwrap();
    assert_eq!((w.name, w.code, w.type_), (None, None, Some(s("TEAM"))));
    assert!(matches!(name_conflict("R&D"), AppError::Conflict(ref m) if m == "org unit name already exists: R&D"));
    assert!(matches!(code_conflict("rd"), AppError::Conflict(ref m) if m == "org unit code already exists: rd"));
}

#[test]
fn org_unit_listing() {
    let sorts = vec![Some(3), None, Some(1), Some(3), Some(-1)];
    let parents = vec![None, Some(0), Some(7), None, Some(2)];
    assert_eq!(listing_order(&sorts, &parents), vec![1, 0, 3]);
}

fn group(id: i64, parent: Option<i64>) -> PermissionGroupRow {
    PermissionGroupRow {
        id,
        name: format!("g{id}"),
        path: None,
        module: None,
        sort_order: None,
        status: None,
        description: None,
        parent_id: parent,
        created_by: None,
        updated_by: None,
        deleted_by: None,
        created_at: None,
        updated_at: None,
        deleted_at: None,
    }
}

fn shape(t: &[PermissionGroupDto]) -> String {
    t.iter()
        .map(|g| if g.children.is_empty() { format!("{}", g.id) } else { format!("{}({})", g.id, shape(&g.children)) })
        .collect::<Vec<_>>()
        .join(",")
}

#[test]
fn permission_group_trees() {
    let flat = vec![group(1, None), group(2, Some(1)), group(3, Some(0)), group(4, Some(2)), group(5, Some(1)), group(6, Some(99))];
    let t = build_tree(&flat);
    assert_eq!(shape(&t), "1(2(4),5),3");
    assert_eq!(t[0].name, Some(s("g1")));
    let cyc = vec![group(1, Some(2)), group(2, Some(1)), group(3, None)];
    assert_eq!(shape(&build_tree(&cyc)), "3");
    assert!(build_tree(&vec![]).is_empty());
}

fn gdata(name: Option<&str>, status: Option<&str>, sort: Option<i64>) -> PermissionGroupData {
    PermissionGroupData { name: name.map(s), module: None, sort_order: sort, status: status.map(s), description: None, parent_id: None }
}

#[test]
fn permission_group_values() {
    let c = group_create(&gdata(Some(" Users "), None, None)).unwrap();
    assert_eq!((c.name, c.status, c.sort_order), (Some(s("Users")), Some(s("ON")), Some(0)));
    assert_eq!(verr(group_create(&gdata(None, None, None))), "permission group name is required");
    assert_eq!(verr(group_create(&gdata(Some("a"), Some("x"), None))), "invalid permission group status: x");
    let u = group_update(&gdata(None, Some("off"), Some(4))).unwrap();
    assert_eq!((u.name, u.status, u.sort_order), (None, Some(s("OFF")), Some(4)));
    assert_eq!(verr(group_update(&gdata(Some(""), None, None))), "permission group name is required");
}

fn plan(name: Option<&str>, version: Option<&str>, expiry: Option<&str>) -> PlanData {
    PlanData { name: name.map(s), version: version.map(s), expiry_policy: expiry.map(s), data_retention_days: None, description: None, remark: None }
}

#[test]
fn plans() {
    assert_eq!(normalize_version("standard").unwrap(), Some(s("STANDARD")));
    assert_eq!(normalize_version("plan_version_unspecified").unwrap(), None);
    assert_eq!(normalize_version("").unwrap(), None);
    assert_eq!(verr(normalize_version("gold")), "invalid plan version: GOLD");
    assert_eq!(normalize_expiry_policy("freeze").unwrap(), Some(s("FREEZE")));
    let f = create_fields(&plan(Some(" Pro "), Some("enterprise"), None)).unwrap();
    assert_eq!((f.name, f.version, f.expiry_policy), (Some(s("Pro")), Some(s("ENTERPRISE")), None));
    assert_eq!(verr(create_fields(&plan(None, None, None))), "plan name is required");
    assert_eq!(verr(create_fields(&plan(Some("p"), None, Some("archive")))), "invalid plan expiry policy: ARCHIVE");
    let u = update_fields(&plan(None, None, Some("readonly"))).unwrap();
    assert_eq!((u.name, u.version, u.expiry_policy), (None, None, Some(s("READONLY"))));
    assert_eq!(verr(update_fields(&plan(None, Some("x"), None))), "invalid plan version: X");
    assert_eq!(delete_ids(Some("5")).unwrap(), vec![5]);
    assert_eq!(verr(delete_ids(Some("a"))), "ids is required");
    assert_eq!(verr(delete_ids(None)), "ids is required");
}

#[test]
fn plan_modules_and_quotas() {
    assert_eq!(normalize_module("opm").unwrap(), Some(s("OPM")));
    assert_eq!(normalize_module("module_unspecified").unwrap(), None);
    assert_eq!(verr(normalize_module("crm")), "invalid module: CRM");
    assert_eq!(normalized_module(&PlanModuleData { plan_id: Some(1), module: None }).unwrap(), None);
    assert_eq!(normalized_module(&PlanModuleData { plan_id: Some(1), module: Some(s("log")) }).unwrap(), Some(s("LOG")));
    assert_eq!(normalize_quota_type("api_call").unwrap(), Some(s("API_CALL")));
    assert_eq!(verr(normalize_quota_type("disk")), "invalid plan quota type: DISK");
    let q = |v: Option<QuotaValueInput>| PlanQuotaData { plan_id: None, quota_type: None, quota_value: v };
    assert_eq!(normalized_quota_value(&q(Some(QuotaValueInput::Num(5)))).unwrap(), Some(5));
    assert_eq!(normalized_quota_value(&q(Some(QuotaValueInput::Str(s(" 12 "))))).unwrap(), Some(12));
    assert_eq!(verr(normalized_quota_value(&q(Some(QuotaValueInput::Str(s("lots")))))), "invalid quota value: lots");
    assert_eq!(normalized_quota_value(&q(None)).unwrap(), None);
}

#[test]
fn quota_value_text_reads_back() {
    for v in [0i64, 7, -42, i64::MAX, i64::MIN] {
        let row = PlanQuotaRow {
            id: 1,
            plan_id: None,
            quota_type: None,
            quota_value: Some(v),
            created_by: None,
            updated_by: None,
            deleted_by: None,
            created_at: None,
            updated_at: None,
            deleted_at: None,
        };
        let t = quota_dto(&row).quota_value.unwrap();
        let d = PlanQuotaData { plan_id: None, quota_type: None, quota_value: Some(QuotaValueInput::Str(t)) };
        assert_eq!(normalized_quota_value(&d).unwrap(), Some(v));
    }
}
