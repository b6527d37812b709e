use backendr::error::AppError;
use backendr::handlers::position::{
    create_values as position_create, update_values as position_update, validate_data,
    PositionData,
};
use backendr::handlers::role::{
    create_values as role_create, normalize_type as role_type, update_values as role_update,
    RoleData, RoleRow,
};

fn s(x: &str) -> String {
    x.to_string()
}

fn verr<T>(r: Result<T, AppError>) -> String {
    match r {
        Err(AppError::Validation(m)) => m,
        Err(e) => panic!("expected a validation error, got {:?}", e),
        Ok(_) => panic!("expected a validation error, got Ok"),
    }
}

fn position(name: Option<&str>, code: Option<&str>, status: Option<&str>, ty: Option<&str>) -> PositionData {
    PositionData {
        name: name.map(s),
        code: code.map(s),
        headcount: None,
        sort_order: None,
        status: status.map(s),
        type_: ty.map(s),
        remark: None,
        description: None,
        job_family: None,
        job_grade: None,
        level: None,
        is_key_position: None,
        tenant_id: None,
        org_unit_id: None,
        reports_to_position_id: None,
        start_at: None,
        end_at: None,
    }
}

#[test]
fn positions() {
    assert!(validate_data(&position(Some("a"), Some("b"), None, None)).is_ok());
    assert_eq!(verr(validate_data(&position(None, Some("b"), None, None))), "position name is required");
    assert_eq!(verr(validate_data(&position(Some("a"), Some(" "), None, None))), "position code is required");
    assert_eq!(verr(validate_data(&position(Some("a"), Some("b"), Some("x"), None))), "invalid position status: x");
    assert_eq!(verr(validate_data(&position(Some("a"), Some("b"), None, Some("boss")))), "invalid position type: boss");
    let v = position_create(&position(Some(" Dev "), Some(" D1 "), Some("on"), Some("leader")), 3).unwrap();
    assert_eq!(v.name, Some(s("Dev")));
    assert_eq!(v.code, Some(s("D1")));
    assert_eq!(v.tenant_id, Some(3));
    assert_eq!(v.status, Some(s("ON")));
    assert_eq!(v.type_, Some(s("LEADER")));
    let u = position_update(&position(None, None, Some("off"), None)).unwrap();
    assert_eq!((u.name, u.code, u.status, u.type_, u.tenant_id), (None, None, Some(s("OFF")), None, None));
    assert_eq!(verr(position_update(&position(None, None, None, Some("ceo")))), "invalid position type: ceo");
}

fn role(name: Option<&str>, code: Option<&str>, ty: Option<&str>, status: Option<&str>) -> RoleData {
    RoleData {
        name: name.map(s),
        code: code.map(s),
        sort_order: None,
        status: status.map(s),
        description: None,
        is_protected: None,
        type_: ty.map(s),
        permissions: Some(vec![3, 4]),
        tenant_id: None,
    }
}

fn row(ty: Option<&str>, protected: Option<bool>) -> RoleRow {
    RoleRow {
        id: 1,
        name: Some(s("r")),
        code: Some(s("r")),
        sort_order: None,
        status: None,
        description: None,
        is_protected: protected,
        type_: ty.map(s),
        tenant_id: None,
        tenant_name: None,
        created_by: None,
        updated_by: None,
        deleted_by: None,
        created_at: None,
        updated_at: None,
        deleted_at: None,
    }
}

#[test]
fn roles_create() {
    assert_eq!(role_type("template").unwrap(), "TEMPLATE");
    let v = role_create(&role(Some(" Ops "), Some(" ops "), Some("system"), Some("on")), 0).unwrap();
    assert_eq!(v.name, Some(s("Ops")));
    assert_eq!(v.code, Some(s("ops")));
    assert_eq!(v.type_, Some(s("SYSTEM")));
    assert_eq!(v.status, Some(s("ON")));
    assert_eq!(v.tenant_id, None);
    assert_eq!(v.permissions, vec![3, 4]);
    let t = role_create(&role(Some("a"), Some("b"), Some("system"), None), 7).unwrap();
    assert_eq!(t.type_, Some(s("TENANT")));
    assert_eq!(t.tenant_id, Some(7));
    assert_eq!(verr(role_create(&role(None, Some("b"), None, None), 0)), "role name and code are required");
    assert_eq!(verr(role_create(&role(Some("a"), Some("b"), Some("guest"), None), 0)), "invalid role type: guest");
}

#[test]
fn roles_update() {
    assert!(matches!(role_update(&row(Some("SYSTEM"), None), &role(Some("x"), None, None, None), 5), Err(AppError::Forbidden(ref m)) if m == "no permission to update system role"));
    let p = role_update(&row(Some("TEMPLATE"), Some(true)), &role(Some(" New "), Some("c"), Some("tenant"), Some("off")), 0).unwrap();
    assert_eq!(p.name, Some(s("New")));
    assert_eq!(p.code, None);
    assert_eq!(p.status, None);
    assert_eq!(p.type_, None);
    assert_eq!(p.is_protected, None);
    assert_eq!(p.tenant_id, None);
    let q = role_update(&row(Some("TENANT"), None), &role(None, Some(" c2 "), None, Some("off")), 3).unwrap();
    assert_eq!(q.code, Some(s("c2")));
    assert_eq!(q.status, Some(s("OFF")));
    assert_eq!(q.type_, Some(s("TENANT")));
    assert_eq!(verr(role_update(&row(None, None), &role(None, Some(" "), None, None), 0)), "role code is required");
}
