use backendr::error::AppError;
use backendr::handlers::{
    required_data, is_blank, member, normalize_upper, normalize_upper_opt, normalize_upper_option,
    optional_nonblank, order_by_key, push_positive_unique, required_trimmed, roots_in_order,
    tenant_or_operator, trimmed, update_creates, update_id, vec_contains,
};

fn s(x: &str) -> String {
    x.to_string()
}

fn verr<T>(r: Result<T, AppError>) -> String {
    match r {
        Err(AppError::Validation(m)) => m,
        Err(e) => panic!("expected a validation error, got {:?}", e),
        Ok(_) => panic!("expected a validation error, got Ok"),
    }
}

#[test]
fn enum_normalisation() {
    assert!(member("ON", &["ON", "OFF"]));
    assert!(!member("on", &["ON", "OFF"]));
    assert_eq!(normalize_upper("off", &["ON", "OFF"], "bad: ").unwrap(), "OFF");
    assert_eq!(verr(normalize_upper("x", &["ON"], "bad: ")), "bad: x");
    assert_eq!(normalize_upper_opt("unspecified", &["A"], &["UNSPECIFIED", ""], "bad: ").unwrap(), None);
    assert_eq!(normalize_upper_opt("a", &["A"], &["UNSPECIFIED"], "bad: ").unwrap(), Some(s("A")));
    assert_eq!(verr(normalize_upper_opt("b", &["A"], &["UNSPECIFIED"], "bad: ")), "bad: B");
    assert_eq!(normalize_upper_option(&None, &["A"], "bad: ").unwrap(), None);
    assert_eq!(normalize_upper_option(&Some(s("a")), &["A"], "bad: ").unwrap(), Some(s("A")));
}

#[test]
fn normalising_twice_is_stable() {
    for v in ["on", "Off", "OFF"] {
        let once = normalize_upper(v, &["ON", "OFF"], "bad: ").unwrap();
        let twice = normalize_upper(&once, &["ON", "OFF"], "bad: ").unwrap();
        assert_eq!(once, twice);
    }
}

#[test]
fn blank_and_trimmed_values() {
    assert!(is_blank(&None));
    assert!(is_blank(&Some(s(" \t"))));
    assert!(!is_blank(&Some(s(" a"))));
    assert_eq!(trimmed(&Some(s(" a "))), "a");
    assert_eq!(trimmed(&None), "");
    assert_eq!(optional_nonblank(&None, "m").unwrap(), None);
    assert_eq!(optional_nonblank(&Some(s(" v ")), "m").unwrap(), Some(s("v")));
    assert_eq!(verr(optional_nonblank(&Some(s(" ")), "m")), "m");
    assert_eq!(required_trimmed(&Some(s(" r ")), "m").unwrap(), "r");
    assert_eq!(verr(required_trimmed(&None, "m")), "m");
}

#[test]
fn update_and_tenant_rules() {
    assert!(update_creates(Some(true), false));
    assert!(!update_creates(Some(true), true));
    assert!(!update_creates(None, false));
    assert_eq!(update_id(Some(4), 9), 4);
    assert_eq!(update_id(None, 9), 9);
    assert_eq!(tenant_or_operator(Some(2), 5), Some(2));
    assert_eq!(tenant_or_operator(None, 5), Some(5));
    assert_eq!(tenant_or_operator(None, 0), None);
    assert!(matches!(required_data(Some(3)), Ok(3)));
    assert!(matches!(required_data::<i64>(None), Err(AppError::Validation(ref m)) if m == "data is required"));
}

#[test]
fn id_lists() {
    let mut acc = vec![3];
    push_positive_unique(&mut acc, &vec![1, 3, -2, 0, 1, 7]);
    assert_eq!(acc, vec![3, 1, 7]);
    assert!(vec_contains(&acc, 7));
    assert!(!vec_contains(&acc, 8));
}

#[test]
fn stable_orders() {
    assert_eq!(order_by_key(&vec![3, 1, 3, 2, 1]), vec![1, 4, 3, 0, 2]);
    assert_eq!(order_by_key(&vec![]), Vec::<usize>::new());
    let parents = vec![None, Some(1), Some(0), Some(-4)];
    assert_eq!(roots_in_order(&parents, &vec![3, 2, 1, 0]), vec![3, 2, 0]);
}
