use backendr::error::AppError;
use backendr::handlers::upsert::{upsert_start, Action, Phase, Reply, Upsert};
use backendr::handlers::org_unit::{
    create_values, org_unit_conversation, unique_checks, update_values, OrgUnitFields,
};
use backendr::handlers::api::{api_conversation, create_fields, endpoint_check_list, update_fields, ApiData};
use backendr::handlers::position::{position_checks, position_conversation, PositionValues};

fn conflict_of(a: Action) -> String {
    match a {
        Action::Respond(Err(AppError::Conflict(m))) => m,
        _ => panic!("expected a conflict"),
    }
}

fn not_found_of(a: Action) -> String {
    match a {
        Action::Respond(Err(AppError::NotFound(m))) => m,
        _ => panic!("expected not found"),
    }
}

fn two_checks() -> Vec<String> {
    vec!["org unit name already exists: HQ".to_string(), "org unit code already exists: C1".to_string()]
}

#[test]
fn missing_row_is_validated_as_a_create_then_checked_then_created() {
    let u = Upsert { allow_missing: true, not_found: "org unit not found".to_string() };
    let (s, a) = u.step(upsert_start(), Reply::Nothing);
    assert!(matches!(a, Action::LookUp));
    let (s, a) = u.step(s, Reply::Exists(false));
    assert!(matches!(a, Action::Validate { creating: true }));
    let (s, a) = u.step(s, Reply::Checks(Ok(two_checks())));
    assert!(matches!(a, Action::CheckTaken { index: 0 }));
    let (s, a) = u.step(s, Reply::Taken(false));
    assert!(matches!(a, Action::CheckTaken { index: 1 }));
    let (s, a) = u.step(s, Reply::Taken(false));
    assert!(matches!(a, Action::Create));
    let (s, a) = u.step(s, Reply::Rows(1));
    assert!(matches!(a, Action::Respond(Ok(()))));
    assert!(s.phase == Phase::Done);
}

#[test]
fn existing_row_is_validated_as_an_update() {
    let u = Upsert { allow_missing: true, not_found: "org unit not found".to_string() };
    let (s, _) = u.step(upsert_start(), Reply::Nothing);
    let (s, a) = u.step(s, Reply::Exists(true));
    assert!(matches!(a, Action::Validate { creating: false }));
    let (_, a) = u.step(s, Reply::Checks(Err(AppError::Validation("org unit name is required".to_string()))));
    assert!(matches!(a, Action::Respond(Err(AppError::Validation(ref m))) if m == "org unit name is required"));
}

#[test]
fn taken_code_answers_conflict() {
    let u = Upsert { allow_missing: false, not_found: "org unit not found".to_string() };
    let (s, a) = u.step(upsert_start(), Reply::Nothing);
    assert!(matches!(a, Action::Validate { creating: false }));
    let (s, _) = u.step(s, Reply::Checks(Ok(two_checks())));
    let (s, _) = u.step(s, Reply::Taken(false));
    assert_eq!(conflict_of(u.step(s, Reply::Taken(true)).1), "org unit code already exists: C1");
}

#[test]
fn update_of_no_row_is_not_found() {
    let u = org_unit_conversation(false);
    let (s, _) = u.step(upsert_start(), Reply::Nothing);
    let (s, a) = u.step(s, Reply::Checks(Ok(vec![])));
    assert!(matches!(a, Action::Update));
    assert_eq!(not_found_of(u.step(s, Reply::Rows(0)).1), "org unit not found");
}

use backendr::middleware::tenant_access::{gate_step, ApiMatch, GateAction, GateReply, GateState, TenantAccessRow};

fn tenant(status: &str, plan: Option<i64>, expired: bool) -> TenantAccessRow {
    TenantAccessRow {
        status: Some(status.to_string()),
        plan_id: plan,
        expiry_policy: Some("READONLY".to_string()),
        expired,
    }
}

fn denied(a: GateAction) -> String {
    match a {
        GateAction::Deny(AppError::Forbidden(m)) => m,
        _ => panic!("expected a denial"),
    }
}

#[test]
fn gate_checks_in_order() {
    let (s, a) = gate_step(GateState::Start, GateReply::Nothing, "POST");
    assert!(matches!(a, GateAction::QueryTenant));
    let (s, a) = gate_step(s, GateReply::Tenant(Some(tenant("ON", Some(3), false))), "POST");
    assert!(matches!(a, GateAction::QueryApi));
    let (s, a) = gate_step(s, GateReply::Api(ApiMatch::Found("OPM".to_string())), "POST");
    match &a {
        GateAction::QueryWhitelist { plan_id, module } => {
            assert_eq!(*plan_id, 3);
            assert_eq!(module, "OPM");
        },
        _ => panic!("expected the whitelist query"),
    }
    assert!(matches!(gate_step(s, GateReply::Count(1), "POST").1, GateAction::Allow));
    assert_eq!(denied(gate_step(GateState::AwaitCount, GateReply::Count(0), "POST").1), "module not allowed");
    assert_eq!(denied(gate_step(GateState::AwaitTenant, GateReply::Tenant(None), "GET").1), "access denied");
    assert_eq!(
        denied(gate_step(GateState::AwaitTenant, GateReply::Tenant(Some(tenant("OFF", Some(3), false))), "GET").1),
        "tenant is not active"
    );
    assert_eq!(
        denied(gate_step(GateState::AwaitTenant, GateReply::Tenant(Some(tenant("ON", Some(3), true))), "PUT").1),
        "tenant is read-only due to expiry"
    );
    assert!(matches!(
        gate_step(GateState::AwaitTenant, GateReply::Tenant(Some(tenant("ON", Some(3), true))), "GET").1,
        GateAction::QueryApi
    ));
    assert_eq!(
        denied(gate_step(GateState::AwaitApi { plan_id: None }, GateReply::Api(ApiMatch::Found("OPM".to_string())), "GET").1),
        "no subscription plan"
    );
    assert_eq!(
        denied(gate_step(GateState::AwaitApi { plan_id: Some(1) }, GateReply::Api(ApiMatch::NotFound), "GET").1),
        "access denied"
    );
}

#[test]
fn org_unit_unique_checks() {
    let f = OrgUnitFields {
        name: Some(" HQ ".to_string()),
        code: Some(" C1 ".to_string()),
        type_: None,
        status: None,
        tenant_id: None,
    };
    let v = create_values(&f, 0).ok().unwrap();
    assert_eq!(
        unique_checks(&v),
        vec!["org unit name already exists: HQ".to_string(), "org unit code already exists: C1".to_string()]
    );
    let g = OrgUnitFields { name: None, code: None, type_: None, status: Some("on".to_string()), tenant_id: None };
    assert!(unique_checks(&update_values(&g).ok().unwrap()).is_empty());
}

fn api_data(path: Option<&str>, method: Option<&str>) -> ApiData {
    ApiData {
        operation: None,
        path: path.map(|x| x.to_string()),
        method: method.map(|x| x.to_string()),
        module: None,
        module_description: None,
        business_module: None,
        description: None,
        scope: None,
        status: None,
    }
}


#[test]
fn api_update_checks_the_endpoint_before_the_write() {
    let conv = api_conversation(false);
    assert!(!conv.allow_missing);
    let u = update_fields(&api_data(Some(" /users "), Some("GET"))).ok().unwrap();
    let (s, _) = conv.step(upsert_start(), Reply::Nothing);
    let (s, a) = conv.step(s, Reply::Checks(Ok(endpoint_check_list(&u))));
    assert!(matches!(a, Action::CheckTaken { index: 0 }));
    assert_eq!(conflict_of(conv.step(s, Reply::Taken(true)).1), "api endpoint already exists: GET /users");
    let only_path = update_fields(&api_data(Some("/users"), None)).ok().unwrap();
    assert!(endpoint_check_list(&only_path).is_empty());
    let c = create_fields(&api_data(Some("/x"), Some("POST"))).ok().unwrap();
    assert_eq!(endpoint_check_list(&c), vec!["api endpoint already exists: POST /x".to_string()]);
    let (s, _) = conv.step(upsert_start(), Reply::Nothing);
    let (s, _) = conv.step(s, Reply::Checks(Ok(vec![])));
    assert_eq!(not_found_of(conv.step(s, Reply::Rows(0)).1), "api not found");
}

#[test]
fn position_checks_and_answers() {
    let v = PositionValues {
        name: Some("Lead".to_string()),
        code: Some("L1".to_string()),
        tenant_id: None,
        status: None,
        type_: None,
    };
    assert_eq!(
        position_checks(&v),
        vec!["position name already exists: Lead".to_string(), "position code already exists: L1".to_string()]
    );
    let w = PositionValues { name: None, code: Some("L2".to_string()), tenant_id: None, status: None, type_: None };
    assert_eq!(position_checks(&w), vec!["position code already exists: L2".to_string()]);
    let conv = position_conversation(true);
    let (s, _) = conv.step(upsert_start(), Reply::Nothing);
    let (s, _) = conv.step(s, Reply::Exists(true));
    let (s, _) = conv.step(s, Reply::Checks(Ok(position_checks(&w))));
    let (_, a) = conv.step(s, Reply::Taken(false));
    assert!(matches!(a, Action::Update));
}

use backendr::handlers::dict_type::{dict_type_checks, dict_type_conversation};
use backendr::handlers::internal_message_category::{category_checks, category_conversation};
use backendr::handlers::language::{language_checks, language_conversation};
use backendr::handlers::plan::{plan_conversation};
use backendr::handlers::role::role_conversation;
use backendr::handlers::script::{script_checks, script_conversation};
use backendr::handlers::user::{user_conversation, username_checks};

#[test]
fn entity_checks_and_not_found_answers() {
    assert_eq!(language_checks(Some("en")), vec!["language code already exists: en".to_string()]);
    assert!(language_checks(None).is_empty());
    assert_eq!(dict_type_checks(Some("sex")), vec!["dict type code already exists: sex".to_string()]);
    assert_eq!(category_checks(Some("sys")), vec!["internal message category code already exists: sys".to_string()]);
    assert_eq!(script_checks(Some("hook")), vec!["script name already exists: hook".to_string()]);
    assert_eq!(username_checks(Some("bob")), vec!["username already exists: bob".to_string()]);
    assert!(username_checks(None).is_empty());
    assert_eq!(language_conversation(false).not_found, "language not found");
    assert_eq!(dict_type_conversation(false).not_found, "dict type not found");
    assert_eq!(category_conversation(false).not_found, "internal message category not found");
    assert_eq!(plan_conversation(false).not_found, "plan not found");
    assert_eq!(role_conversation(false).not_found, "role not found");
    assert_eq!(script_conversation(true).not_found, "script not found");
    assert_eq!(user_conversation(false).not_found, "user not found");
}
