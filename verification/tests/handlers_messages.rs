use backendr::error::AppError;
use backendr::handlers::internal_message::{
    message_targets, normalize_status, normalize_type, status_or_default, type_or_default,
    SendMessageBody, Targets,
};
use backendr::handlers::internal_message_category::{
    create_values, validate_data, InternalMessageCategoryData,
};
use backendr::handlers::internal_message_recipient::{
    inbox_user, mark_status_request, normalize_status as recipient_status, MarkStatusBody,
};
use backendr::handlers::language::{
    check_batch, delete_id, lookup_code, update_names, validate_data as validate_language,
    BatchCreateLanguagesBody, DeleteQuery, LanguageData,
};

fn s(x: &str) -> String {
    x.to_string()
}

fn verr<T>(r: Result<T, AppError>) -> String {
    match r {
        Err(AppError::Validation(m)) => m,
        Err(e) => panic!("expected a validation error, got {:?}", e),
        Ok(_) => panic!("expected a validation error, got Ok"),
    }
}

#[test]
fn message_enums() {
    assert_eq!(normalize_status("published").unwrap(), "PUBLISHED");
    assert_eq!(verr(normalize_status("sent")), "invalid message status: sent");
    assert_eq!(normalize_type("group").unwrap(), "GROUP");
    assert_eq!(type_or_default(&None).unwrap(), "NOTIFICATION");
    assert_eq!(status_or_default(&None).unwrap(), "DRAFT");
    assert_eq!(status_or_default(&Some(s("archived"))).unwrap(), "ARCHIVED");
    assert_eq!(verr(type_or_default(&Some(s("email")))), "invalid message type: email");
}

fn send(all: Option<bool>, recipient: Option<i64>, targets: Option<Vec<i64>>) -> SendMessageBody {
    SendMessageBody {
        type_: None,
        recipient_user_id: recipient,
        conversation_id: None,
        category_id: None,
        target_user_ids: targets,
        target_all: all,
        title: Some(s("t")),
        content: Some(s("c")),
    }
}

#[test]
fn message_recipients() {
    assert!(matches!(message_targets(&send(Some(true), Some(3), None)), Targets::All));
    assert!(matches!(message_targets(&send(Some(false), Some(3), Some(vec![4]))), Targets::Users(ref v) if *v == vec![3]));
    assert!(matches!(message_targets(&send(None, Some(0), Some(vec![5, -1, 5, 2, 0]))), Targets::Users(ref v) if *v == vec![5, 2]));
    assert!(matches!(message_targets(&send(None, None, None)), Targets::Users(ref v) if v.is_empty()));
}

fn category(name: Option<&str>, code: Option<&str>, enabled: Option<bool>) -> InternalMessageCategoryData {
    InternalMessageCategoryData {
        name: name.map(s),
        code: code.map(s),
        icon_url: None,
        sort_order: None,
        is_enabled: enabled,
        tenant_id: None,
    }
}

#[test]
fn message_categories() {
    assert_eq!(create_values(&category(Some(" News "), Some(" news "), None)).unwrap(), (s("News"), s("news"), true));
    assert_eq!(create_values(&category(Some("a"), Some("b"), Some(false))).unwrap().2, false);
    assert_eq!(verr(validate_data(&category(None, Some("b"), None))), "category name is required");
    assert_eq!(verr(validate_data(&category(Some("a"), Some(" "), None))), "category code is required");
    assert!(create_values(&category(Some(""), Some("b"), None)).is_err());
}

#[test]
fn inbox_statuses() {
    assert_eq!(recipient_status("read").unwrap(), "READ");
    assert_eq!(recipient_status("2").unwrap(), "READ");
    assert_eq!(recipient_status("0").unwrap(), "SENT");
    assert_eq!(recipient_status("4").unwrap(), "DELETED");
    assert_eq!(verr(recipient_status("seen")), "invalid newStatus: SEEN");
    let ok = MarkStatusBody { user_id: Some(3), recipient_ids: Some(vec![1]), new_status: Some(s("revoked")) };
    assert_eq!(mark_status_request(&ok).unwrap(), (3, s("REVOKED")));
    let no_user = MarkStatusBody { user_id: Some(0), recipient_ids: None, new_status: Some(s("read")) };
    assert_eq!(verr(mark_status_request(&no_user)), "userId is required");
    let no_status = MarkStatusBody { user_id: Some(1), recipient_ids: None, new_status: Some(s(" ")) };
    assert_eq!(verr(mark_status_request(&no_status)), "newStatus is required");
    assert_eq!(inbox_user(Some(9)).unwrap(), 9);
    assert_eq!(verr(inbox_user(None)), "userId is required");
    assert_eq!(verr(inbox_user(Some(0))), "userId is required");
}

fn lang(code: Option<&str>, name: Option<&str>, native: Option<&str>) -> LanguageData {
    LanguageData {
        language_code: code.map(s),
        language_name: name.map(s),
        native_name: native.map(s),
        is_default: None,
        is_enabled: None,
        sort_order: None,
    }
}

#[test]
fn languages() {
    assert_eq!(
        validate_language(&lang(Some(" zh-CN "), Some("Chinese"), Some("中文"))).unwrap(),
        (s("zh-CN"), s("Chinese"), s("中文"))
    );
    assert_eq!(verr(validate_language(&lang(None, Some("a"), Some("b")))), "language code is required");
    assert_eq!(verr(validate_language(&lang(Some("x"), Some(" "), Some("b")))), "language name is required");
    assert_eq!(verr(validate_language(&lang(Some("x"), Some("a"), None))), "native name is required");
    assert!(check_batch(&BatchCreateLanguagesBody { items: vec![lang(None, None, None)] }).is_ok());
    assert_eq!(verr(check_batch(&BatchCreateLanguagesBody { items: vec![] })), "items is required");
    assert_eq!(update_names(&lang(None, Some(" En "), None)).unwrap(), (Some(s("En")), None));
    assert_eq!(verr(update_names(&lang(None, Some(" "), None))), "language name is required");
    assert_eq!(verr(update_names(&lang(None, None, Some("")))), "native name is required");
    assert_eq!(lookup_code(Some(" en ")), Some(s("en")));
    assert_eq!(lookup_code(Some(" ")), None);
    assert_eq!(lookup_code(None), None);
    assert_eq!(delete_id(&DeleteQuery { id: Some(3) }).unwrap(), 3);
    assert_eq!(verr(delete_id(&DeleteQuery { id: None })), "invalid parameter");
}
