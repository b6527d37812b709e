use std::collections::HashMap;

use backendr::error::AppError;
use backendr::handlers::permission::{
    api_path_to_resource, assign_groups, button_action, compose_menu_paths, convert_api_code,
    convert_menu_code, create_values, delete_target, lookup_code, menu_path_to_module,
    menu_type_to_action, parent_order, pascal_case, plan_sync, singularize, to_dto,
    update_changes, validate_data, PermissionData, PermissionDeleteTarget, PermissionRow,
    SyncApi, SyncMenu,
};

fn s(x: &str) -> String {
    x.to_string()
}

fn verr<T>(r: Result<T, AppError>) -> String {
    match r {
        Err(AppError::Validation(m)) => m,
        Err(e) => panic!("expected a validation error, got {:?}", e),
        Ok(_) => panic!("expected a validation error, got Ok"),
    }
}

#[test]
fn button_and_menu_actions() {
    assert_eq!(button_action("Add User"), "create");
    assert_eq!(button_action(" 新增 "), "create");
    assert_eq!(button_action("Save"), "edit");
    assert_eq!(button_action("编辑"), "edit");
    assert_eq!(button_action("Remove"), "delete");
    assert_eq!(button_action("导入"), "import");
    assert_eq!(button_action("Download"), "export");
    assert_eq!(button_action("Frobnicate"), "act");
    assert_eq!(menu_type_to_action("x", "CATALOG"), "dir");
    assert_eq!(menu_type_to_action("x", "MENU"), "view");
    assert_eq!(menu_type_to_action("x", "EMBEDDED"), "view");
    assert_eq!(menu_type_to_action("x", "LINK"), "jump");
    assert_eq!(menu_type_to_action("Delete", "BUTTON"), "delete");
    assert_eq!(menu_type_to_action("x", "menu"), "");
}

#[test]
fn singular_words() {
    assert_eq!(singularize("users"), "user");
    assert_eq!(singularize("categories"), "category");
    assert_eq!(singularize("boxes"), "box");
    assert_eq!(singularize("addresses"), "address");
    assert_eq!(singularize("watches"), "watch");
    assert_eq!(singularize("dishes"), "dish");
    assert_eq!(singularize("class"), "class");
    assert_eq!(singularize("ies"), "ie");
    assert_eq!(singularize("s"), "s");
    assert_eq!(singularize(""), "");
}

#[test]
fn menu_codes() {
    assert_eq!(convert_menu_code("/system/users", "Users", "MENU"), "user:view");
    assert_eq!(convert_menu_code("/system", "System", "CATALOG"), "system:dir");
    assert_eq!(convert_menu_code("/opm/users/:id/detail", "Detail", "BUTTON"), "user:detail:act");
    assert_eq!(convert_menu_code("/a/b", "t", "OTHER"), "b");
    assert_eq!(convert_menu_code(" / ", "t", "MENU"), "");
    assert_eq!(convert_menu_code("/a/:id", "t", "MENU"), "");
    assert_eq!(menu_path_to_module("/system/users"), "system");
    assert_eq!(menu_path_to_module("system/users"), "users");
    assert_eq!(menu_path_to_module("system"), "biz");
    assert_eq!(menu_path_to_module("a/ /c"), "biz");
    assert_eq!(pascal_case("user_view"), "UserView");
    assert_eq!(pascal_case("a-b c:d"), "ABCD");
    assert_eq!(pascal_case(""), "");
}

#[test]
fn api_codes() {
    assert_eq!(api_path_to_resource("/admin/v1/users/{id}"), "user");
    assert_eq!(api_path_to_resource("/api/v2/roles"), "role");
    assert_eq!(api_path_to_resource("/users:exists"), "user");
    assert_eq!(api_path_to_resource("/a/b/v1/x"), "a");
    assert_eq!(api_path_to_resource("/"), "");
    assert_eq!(api_path_to_resource("/v1/{id}"), "");
    assert_eq!(convert_api_code("GET", "/admin/v1/users"), "user:view");
    assert_eq!(convert_api_code("post", "/admin/v1/users"), "user:create");
    assert_eq!(convert_api_code("PATCH", "/admin/v1/users/{id}"), "user:edit");
    assert_eq!(convert_api_code("DELETE", "/admin/v1/users/{id}"), "user:delete");
    assert_eq!(convert_api_code("HEAD", "/admin/v1/users"), "");
    assert_eq!(convert_api_code("POST", "/admin/v1/users/list"), "user:view");
    assert_eq!(convert_api_code("GET", "/"), "");
}

#[test]
fn menu_full_paths() {
    let menus = vec![
        (1, s("/system"), s("System"), 0),
        (2, s("users/"), s("Users"), 1),
        (3, s("roles"), s("Roles"), 1),
        (4, s("x"), s("X"), 99),
        (5, s("/loop/"), s("L"), 6),
        (6, s("b"), s("B"), 5),
        (7, s("self"), s("S"), 7),
    ];
    let m = compose_menu_paths(&menus);
    assert_eq!(m.get(&1), Some(&s("system")));
    assert_eq!(m.get(&2), Some(&s("system/users")));
    assert_eq!(m.get(&3), Some(&s("system/roles")));
    assert_eq!(m.get(&4), Some(&s("x")));
    assert_eq!(m.get(&99), Some(&s("")));
    assert_eq!(m.get(&5), Some(&s("loop/b/loop")));
    assert_eq!(m.get(&6), Some(&s("loop/b")));
    assert_eq!(m.get(&7), Some(&s("self")));
    assert_eq!(m.len(), 8);
}

fn menu(id: i64, name: &str, path: &str, parent: i64, ty: &str) -> SyncMenu {
    SyncMenu { id, name: s(name), path: s(path), parent_id: parent, mtype: s(ty) }
}

#[test]
fn sync_plan_and_groups() {
    let menus = vec![
        menu(3, "Add", "add", 2, "BUTTON"),
        menu(1, "System", "/system", 0, "CATALOG"),
        menu(2, "Users", "users", 1, "MENU"),
    ];
    assert_eq!(parent_order(&menus), vec![1, 2, 0]);
    let apis = vec![
        SyncApi { id: 10, method: s("GET"), path: s("/admin/v1/users") },
        SyncApi { id: 11, method: s("POST"), path: s("/admin/v1/users") },
        SyncApi { id: 12, method: s("GET"), path: s("/admin/v1/roles") },
        SyncApi { id: 13, method: s("GET"), path: s("/admin/v1/users/{id}") },
    ];
    let (groups, mut perms) = plan_sync(&menus, &apis);
    assert_eq!(groups, vec![(s("未分类"), s("uncategorized")), (s("System"), s("biz"))]);
    let v: Vec<(String, String, String, Vec<i64>, Vec<i64>)> = perms
        .iter()
        .map(|p| (p.name.clone(), p.code.clone(), p.module.clone(), p.menu_ids.clone(), p.api_ids.clone()))
        .collect();
    assert_eq!(
        v,
        vec![
            (s("System"), s("system:dir"), s("biz"), vec![1], vec![]),
            (s("Users"), s("user:view"), s("users"), vec![2], vec![10, 13]),
            (s("Add"), s("user:add:create"), s("users"), vec![3], vec![]),
            (s("UserCreate"), s("user:create"), s("users"), vec![], vec![11]),
            (s("RoleView"), s("role:view"), s("uncategorized"), vec![], vec![12]),
        ]
    );
    assert!(perms.iter().all(|p| p.group_id.is_none()));
    assign_groups(&mut perms, &groups, &vec![100, 200]);
    let g: Vec<Option<i64>> = perms.iter().map(|p| p.group_id).collect();
    assert_eq!(g, vec![Some(200), None, None, None, Some(100)]);
}

fn pdata(name: Option<&str>, code: Option<&str>, status: Option<&str>) -> PermissionData {
    PermissionData { name: name.map(s), code: code.map(s), description: None, status: status.map(s), group_id: None, menu_ids: None, api_ids: None }
}

#[test]
fn permission_data() {
    assert_eq!(create_values(&pdata(Some("n"), Some(" c:v "), None)).unwrap(), (s("c:v"), s("ON")));
    assert_eq!(create_values(&pdata(Some("n"), Some("c"), Some("off"))).unwrap(), (s("c"), s("OFF")));
    assert_eq!(verr(validate_data(&pdata(None, Some("c"), None))), "permission name is required");
    assert_eq!(verr(validate_data(&pdata(Some("n"), Some(" "), None))), "permission code is required");
    assert_eq!(verr(validate_data(&pdata(Some("n"), Some("c"), Some("x")))), "invalid permission status: x");
    let u = update_changes(&pdata(None, None, Some("on"))).unwrap();
    assert_eq!((u.name, u.code, u.status), (None, None, Some(s("ON"))));
    assert_eq!(verr(update_changes(&pdata(Some("n"), None, None))), "permission code is required");
    assert_eq!(lookup_code(Some(" a ")), Some(s(" a ")));
    assert_eq!(lookup_code(Some(" ")), None);
    assert!(matches!(delete_target(Some("c"), Some("3")), PermissionDeleteTarget::Code(ref c) if c == "c"));
    assert!(matches!(delete_target(Some(" "), Some("3")), PermissionDeleteTarget::Group(3)));
    assert!(matches!(delete_target(None, Some("x")), PermissionDeleteTarget::Id));
}

#[test]
fn permission_dtos() {
    let row = PermissionRow {
        id: 5,
        name: Some(s("n")),
        code: Some(s("c")),
        description: None,
        status: Some(s("ON")),
        group_id: Some(2),
        group_name: None,
        created_by: None,
        updated_by: None,
        deleted_by: None,
        created_at: None,
        updated_at: None,
        deleted_at: None,
    };
    let mut menus = HashMap::new();
    menus.insert(5, vec![1, 2]);
    let apis = HashMap::new();
    let d = to_dto(&row, &menus, &apis);
    assert_eq!(d.id, 5);
    assert_eq!(d.menu_ids, vec![1, 2]);
    assert!(d.api_ids.is_empty());
    assert_eq!(d.group_id, Some(2));
}

use backendr::handlers::permission::{group_kept_by_sync, group_rows, kept_by_sync};

#[test]
fn sync_group_rows_and_kept_rows() {
    let groups = vec![
        ("未分类".to_string(), "uncategorized".to_string()),
        ("System".to_string(), "system".to_string()),
    ];
    let rows = group_rows(&groups);
    assert_eq!(rows.len(), 2);
    assert_eq!(rows[0].name, "未分类");
    assert_eq!(rows[0].sort_order, 1);
    assert_eq!(rows[1].module, "system");
    assert_eq!(rows[1].sort_order, 2);
    assert!(rows.iter().all(|g| g.status == "ON"));
    assert!(kept_by_sync("sys:user:list"));
    assert!(!kept_by_sync("opm:user:list"));
    assert!(group_kept_by_sync(Some("sys")));
    assert!(!group_kept_by_sync(Some("system")));
    assert!(!group_kept_by_sync(None));
}
