use std::collections::HashMap;

use backendr::error::AppError;
use backendr::handlers::config::{create_values, normalize_value_type, ConfigData};
use backendr::handlers::dashboard::{distribution_item, to_count, trend_days, trend_points};
use backendr::handlers::dict_entry::{
    check_delete_ids, replaces_i18n, required_type_code, update_value, validate_data,
    DeleteIdsQuery, DictEntryData, DictEntryI18nData, FieldMask,
};
use backendr::handlers::dict_type::{
    check_code_scope, create_names, update_name, DictTypeData,
};
use backendr::handlers::file::{create_provider, normalize_provider, update_provider};
use backendr::handlers::file_transfer::{
    check_upload, download_file_response, download_mime, download_selector, image_signature_check,
    last_segment, prefer_presigned, presign_seconds, split_media_path, upload_response,
    DownloadSelector, file_guid, upload_record,
};

fn s(x: &str) -> String {
    x.to_string()
}

fn verr<T>(r: Result<T, AppError>) -> String {
    match r {
        Err(AppError::Validation(m)) => m,
        Err(e) => panic!("expected a validation error, got {:?}", e),
        Ok(_) => panic!("expected a validation error, got Ok"),
    }
}

fn config(key: Option<&str>, ty: Option<&str>, built_in: Option<bool>) -> ConfigData {
    ConfigData { name: None, key: key.map(s), value: None, value_type: ty.map(s), is_built_in: built_in }
}

#[test]
fn config_values() {
    let v = create_values(&Some(config(Some("site.title"), None, None))).unwrap();
    assert_eq!(v.key, "site.title");
    assert_eq!(v.value_type, "STRING");
    assert!(!v.is_built_in);
    let w = create_values(&Some(config(Some("k"), Some("bool"), Some(true)))).unwrap();
    assert_eq!(w.value_type, "BOOL");
    assert!(w.is_built_in);
    assert_eq!(verr(create_values(&None)), "invalid parameter");
    assert_eq!(verr(create_values(&Some(config(Some(""), None, None)))), "key is required");
    assert_eq!(verr(create_values(&Some(config(Some("k"), Some("float"), None)))), "invalid config value type: float");
    assert_eq!(normalize_value_type("int").unwrap(), "INT");
}

#[test]
fn dashboard_trend() {
    assert_eq!(trend_days(None), 7);
    assert_eq!(trend_days(Some("30")), 30);
    assert_eq!(trend_days(Some("0")), 7);
    assert_eq!(trend_days(Some("-3")), 7);
    assert_eq!(trend_days(Some("x")), 7);
    let days = vec![s("2024-01-01"), s("2024-01-02"), s("2024-01-03")];
    let events = vec![s("2024-01-02"), s("2024-01-02"), s("2023-12-31"), s("2024-01-03")];
    let p = trend_points(&days, &events);
    assert_eq!(p.len(), 3);
    assert_eq!((p[0].date.as_str(), p[0].count), ("2024-01-01", 0));
    assert_eq!((p[1].date.as_str(), p[1].count), ("2024-01-02", 2));
    assert_eq!((p[2].date.as_str(), p[2].count), ("2024-01-03", 1));
    assert_eq!(to_count(5), 5);
    let d = distribution_item(None, None);
    assert_eq!((d.label.as_str(), d.count), ("", 0));
    let e = distribution_item(Some(s("SUCCESS")), Some(12));
    assert_eq!((e.label.as_str(), e.count), ("SUCCESS", 12));
}

fn entry(value: Option<&str>) -> DictEntryData {
    DictEntryData {
        type_id: Some(1),
        entry_value: value.map(s),
        numeric_value: None,
        is_enabled: None,
        sort_order: None,
        tenant_id: None,
        i18n: HashMap::new(),
    }
}

#[test]
fn dict_entries() {
    assert_eq!(validate_data(&entry(Some(" v "))).unwrap(), "v");
    assert_eq!(verr(validate_data(&entry(Some("  ")))), "dict entry value is required");
    assert_eq!(verr(validate_data(&entry(None))), "dict entry value is required");
    assert_eq!(update_value(&None).unwrap(), None);
    assert_eq!(update_value(&Some(s(" x"))).unwrap(), Some(s("x")));
    assert_eq!(verr(update_value(&Some(s("")))), "dict entry value is required");
    assert_eq!(required_type_code(Some(" gender ")).unwrap(), "gender");
    assert_eq!(verr(required_type_code(Some(" "))), "invalid parameter");
    assert_eq!(verr(required_type_code(None)), "invalid parameter");
    assert!(check_delete_ids(&DeleteIdsQuery { ids: vec![1] }).is_ok());
    assert_eq!(verr(check_delete_ids(&DeleteIdsQuery { ids: vec![] })), "invalid parameter");
}

#[test]
fn dict_entry_i18n_mask() {
    let mut d = entry(Some("v"));
    let mask = Some(FieldMask { paths: vec![s("entryValue"), s("I18N")] });
    assert!(!replaces_i18n(&mask, &d));
    d.i18n.insert(s("en"), DictEntryI18nData { entry_label: Some(s("Male")), description: None });
    assert!(replaces_i18n(&mask, &d));
    assert!(!replaces_i18n(&None, &d));
    assert!(!replaces_i18n(&Some(FieldMask { paths: vec![s("sortOrder")] }), &d));
}

fn dtype(code: Option<&str>, name: Option<&str>) -> DictTypeData {
    DictTypeData { type_code: code.map(s), typename: name.map(s), is_enabled: None, sort_order: None, tenant_id: None }
}

#[test]
fn dict_types() {
    assert_eq!(create_names(&dtype(Some(" g "), Some(" Gender "))).unwrap(), (s("g"), s("Gender")));
    assert_eq!(verr(create_names(&dtype(None, Some("x")))), "dict type code is required");
    assert_eq!(verr(create_names(&dtype(Some("c"), Some(" ")))), "dict type name is required");
    assert_eq!(update_name(&None).unwrap(), None);
    assert_eq!(verr(update_name(&Some(s(" ")))), "dict type name is required");
    assert!(check_code_scope(2).is_ok());
    assert_eq!(verr(check_code_scope(0)), "tenant scope required to query dict type by code");
}

#[test]
fn file_providers() {
    assert_eq!(normalize_provider("minio").unwrap(), "MINIO");
    assert_eq!(create_provider(&None).unwrap(), "MINIO");
    assert_eq!(verr(create_provider(&Some(s("ftp")))), "invalid provider: ftp");
    assert_eq!(update_provider(&None).unwrap(), None);
    assert_eq!(update_provider(&Some(s("minio"))).unwrap(), Some(s("MINIO")));
}

#[test]
fn upload_checks() {
    assert_eq!(verr(check_upload(false, true, "a", "b")), "unknown storageObject");
    assert_eq!(verr(check_upload(true, false, "a", "b")), "unknown fileData");
    assert_eq!(verr(check_upload(true, true, " ", "b")), "unknown mime type");
    assert_eq!(verr(check_upload(true, true, "image/png", "")), "unknown source file name");
    assert!(check_upload(true, true, "image/png", "a.png").is_ok());
    let r = upload_response(s("b/o.png"), s(""));
    assert_eq!(r.object_name, Some(s("b/o.png")));
    assert_eq!(r.presigned_url, None);
    assert_eq!(r.public_url, None);
    assert_eq!(upload_response(s("x"), s("http://p")).public_url, Some(s("http://p")));
}

#[test]
fn download_responses() {
    let r = download_file_response(&b"hello".to_vec(), s("h.txt"), s(""));
    assert_eq!(r.file, Some(s("aGVsbG8=")));
    assert_eq!(r.mime, Some(s("application/octet-stream")));
    assert_eq!(r.size, Some(5));
    assert_eq!(
        r.checksum,
        Some(s("2cf24dba5fb0a30e26e83b2ac5b9e29e1b161e5c1fa7425e73043362938b9824"))
    );
    assert_eq!(r.source_file_name, Some(s("h.txt")));
    assert_eq!(download_file_response(&vec![], s(""), s("text/plain")).mime, Some(s("text/plain")));
    assert_eq!(download_mime("", s("a/b")), "a/b");
    assert_eq!(download_mime("c/d", s("a/b")), "c/d");
    assert!(prefer_presigned(Some("true")));
    assert!(prefer_presigned(Some("1")));
    assert!(!prefer_presigned(Some("TRUE")));
    assert!(!prefer_presigned(None));
    assert_eq!(presign_seconds(Some("60"), 3600), 60);
    assert_eq!(presign_seconds(Some("x"), 3600), 3600);
    assert_eq!(presign_seconds(None, 10), 10);
}

#[test]
fn download_selectors() {
    assert!(matches!(download_selector(Some("http://u"), Some("b"), None, None, None, None), Ok(DownloadSelector::Url(ref u)) if u == "http://u"));
    match download_selector(Some(" "), Some("bkt"), Some("o"), None, Some("n.txt"), None) {
        Ok(DownloadSelector::StorageObject { bucket, object, directory, source_file_name }) => {
            assert_eq!(bucket, "bkt");
            assert_eq!(object, Some(s("o")));
            assert_eq!(directory, None);
            assert_eq!(source_file_name, "n.txt");
        },
        _ => panic!(),
    }
    assert!(matches!(download_selector(None, None, None, None, None, Some(" 12 ")), Ok(DownloadSelector::FileId(12))));
    assert_eq!(verr(download_selector(None, None, None, None, None, Some("a"))), "invalid fileId");
    assert_eq!(verr(download_selector(None, None, None, None, None, None)), "unknown download selector");
}

#[test]
fn media_paths_and_signatures() {
    assert_eq!(last_segment("a/b/c.png"), "c.png");
    assert_eq!(last_segment("a/b/"), "");
    assert_eq!(last_segment("x"), "x");
    assert_eq!(split_media_path("/bucket/dir/obj.png").unwrap(), (s("bucket"), s("dir/obj.png")));
    assert_eq!(verr(split_media_path("/bucket")), "invalid path");
    assert_eq!(verr(split_media_path("/bucket/")), "invalid path");
    assert!(image_signature_check(true, "", "", "").is_ok());
    assert_eq!(verr(image_signature_check(false, "p", "", "s")), "missing parameters");
    assert!(matches!(image_signature_check(false, "p", "1", "s"), Err(AppError::Forbidden(ref m)) if m == "invalid signature"));
}

#[test]
fn upload_record_fields() {
    let data = b"abc".to_vec();
    let r = upload_record(&data, "files", "/avatars/2024/", "f00d", "png", "me.png", "files/avatars/2024/f00d.png", s("g1"), 7)
        .unwrap();
    assert_eq!(r.provider, "MINIO");
    assert_eq!(r.bucket_name, "files");
    assert_eq!(r.file_directory, "avatars/2024");
    assert_eq!(r.save_file_name, "f00d.png");
    assert_eq!(r.extension, "png");
    assert_eq!(r.size, 3);
    assert_eq!(r.file_guid, "g1");
    assert_eq!(r.tenant_id, 7);
    assert_eq!(r.sha256, "ba7816bf8f01cfea414140de5dae2223b00361a396177a9cb410ff61f20015ad");
}

#[test]
fn file_guid_is_simple_uuid() {
    let g = file_guid();
    assert_eq!(g.len(), 32);
    assert!(g.chars().all(|c| c.is_ascii_hexdigit() && !c.is_ascii_uppercase()));
    assert_ne!(g, file_guid());
}
