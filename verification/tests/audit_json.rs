use backendr::handlers::audit_logs::{camelize_keys, row_to_json, Cell, ColDef, JsonValue, VT};

fn s(x: &str) -> String {
    x.to_string()
}

/// Compact JSON in the members' own order.
fn render(v: &JsonValue) -> String {
    match v {
        JsonValue::Null => s("null"),
        JsonValue::Bool(b) => b.to_string(),
        JsonValue::Number { text, .. } => text.clone(),
        JsonValue::Text(t) => serde_json::to_string(t).unwrap(),
        JsonValue::Array(a) => format!("[{}]", a.iter().map(render).collect::<Vec<_>>().join(",")),
        JsonValue::Object(m) => format!(
            "{{{}}}",
            m.iter()
                .map(|(k, v)| format!("{}:{}", serde_json::to_string(k).unwrap(), render(v)))
                .collect::<Vec<_>>()
                .join(",")
        ),
    }
}

fn num(n: i64) -> JsonValue {
    JsonValue::Number { text: n.to_string(), integer: Some(n) }
}

fn obj(m: Vec<(&str, JsonValue)>) -> JsonValue {
    JsonValue::Object(m.into_iter().map(|(k, v)| (s(k), v)).collect())
}

#[test]
fn camelized_structures() {
    let v = obj(vec![
        ("device_type", num(2)),
        ("nested_list", JsonValue::Array(vec![obj(vec![("a_b", JsonValue::Null)])])),
        ("os_name", JsonValue::Text(s("linux"))),
    ]);
    assert_eq!(
        render(&camelize_keys(v)),
        r#"{"deviceType":"MOBILE","nestedList":[{"aB":null}],"osName":"linux"}"#
    );
}

#[test]
fn camelized_collisions_and_device_types() {
    let v = obj(vec![("a_b", JsonValue::Bool(true)), ("aB", JsonValue::Bool(false))]);
    assert_eq!(render(&camelize_keys(v)), r#"{"aB":false}"#);
    let f = obj(vec![("device_type", JsonValue::Number { text: s("1.5"), integer: None })]);
    assert_eq!(render(&camelize_keys(f)), r#"{"deviceType":"DEVICE_TYPE_UNSPECIFIED"}"#);
    let t = obj(vec![("device_type", JsonValue::Text(s("TABLET")))]);
    assert_eq!(render(&camelize_keys(t)), r#"{"deviceType":"TABLET"}"#);
    let z = obj(vec![("zeta", num(1)), ("alpha_beta", num(2))]);
    assert_eq!(render(&camelize_keys(z)), r#"{"alphaBeta":2,"zeta":1}"#);
    assert_eq!(render(&camelize_keys(JsonValue::Text(s("a_b")))), r#""a_b""#);
}

#[test]
fn records_of_rows() {
    let defs = vec![
        ColDef { name: "id", ty: VT::Num },
        ColDef { name: "created_at", ty: VT::Ts },
        ColDef { name: "geo_location", ty: VT::Json },
        ColDef { name: "success", ty: VT::Bool },
        ColDef { name: "reason", ty: VT::Str },
        ColDef { name: "before_data", ty: VT::Json },
        ColDef { name: "device_info", ty: VT::Json },
    ];
    let cells = vec![
        Cell::Num(7),
        Cell::Text(s("2024-01-01T00:00:00.000000Z")),
        Cell::Json(Some(obj(vec![("city_name", JsonValue::Text(s("x")))]))),
        Cell::Bool(true),
        Cell::Null,
        Cell::Json(Some(obj(vec![("a_b", JsonValue::Null)]))),
        Cell::Json(None),
    ];
    assert_eq!(
        render(&row_to_json(&defs, cells)),
        r#"{"beforeData":{"a_b":null},"createdAt":"2024-01-01T00:00:00.000000Z","geoLocation":{"cityName":"x"},"id":7,"success":true}"#
    );
    assert_eq!(render(&row_to_json(&vec![], vec![])), "{}");
}
