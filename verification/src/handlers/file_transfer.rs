//! File transfer: the checks of an upload, the selector and answer of a
//! download (bytes in base64 with their SHA-256), and the path of a signed
//! image request.

use vstd::prelude::*;
use vstd::string::*;
use crate::error::{AppError, is_validation};
use crate::crypto::{base64_fits, base64_encoding, hex_lower, sha256};
use crate::auth::{new_jti, uuid_text, is_lower_hex};
use crate::text::{
    trim_char, trim_char_str, cat3,
    trim, trim_str, ltrim_by, eq_pred, split_char, split_char_str, first_index, find_char, chars_of,
    slice_string, str_eq, parse_i64, parse_i64_spec,
};

verus! {

pub struct UploadFileResponse {
    /// The `{bucket}/{object}` reference of the stored object.
    pub object_name: Option<String>,
    /// Always absent: presigned uploads are disabled.
    pub presigned_url: Option<String>,
    /// The signed public URL; absent without a signing key.
    pub public_url: Option<String>,
}

pub struct DownloadFileResponse {
    /// The file's bytes in base64.
    pub file: Option<String>,
    pub download_url: Option<String>,
    pub source_file_name: Option<String>,
    pub mime: Option<String>,
    pub size: Option<i64>,
    pub checksum: Option<String>,
    pub storage_path: Option<String>,
    pub updated_at: Option<String>,
}

pub struct UploadStorageObject {
    pub bucket_name: Option<String>,
    pub file_directory: Option<String>,
    pub object_name: Option<String>,
}

/// The checks of an upload's form: a storage object and the file are
/// required, and a MIME type and a source file name that are not blank.
pub fn check_upload(has_storage_object: bool, has_file: bool, mime: &str, source_file_name: &str) -> (r: Result<(), AppError>)
    ensures
        !has_storage_object ==> (r matches Err(e) && is_validation(e, "unknown storageObject"@)),
        has_storage_object && !has_file ==> (r matches Err(e) && is_validation(e, "unknown fileData"@)),
        has_storage_object && has_file && trim(mime@).len() == 0 ==> (r matches Err(e) && is_validation(
            e,
            "unknown mime type"@,
        )),
        has_storage_object && has_file && trim(mime@).len() > 0 && trim(source_file_name@).len() == 0
            ==> (r matches Err(e) && is_validation(e, "unknown source file name"@)),
        has_storage_object && has_file && trim(mime@).len() > 0 && trim(source_file_name@).len() > 0
            ==> r is Ok,
{
    if !has_storage_object {
        return Err(AppError::Validation(String::from_str("unknown storageObject")));
    }
    if !has_file {
        return Err(AppError::Validation(String::from_str("unknown fileData")));
    }
    if trim_str(mime).unicode_len() == 0 {
        return Err(AppError::Validation(String::from_str("unknown mime type")));
    }
    if trim_str(source_file_name).unicode_len() == 0 {
        return Err(AppError::Validation(String::from_str("unknown source file name")));
    }
    Ok(())
}

/// The answer of an upload.
pub fn upload_response(download_url: String, public_url: String) -> (r: UploadFileResponse)
    ensures
        r.object_name == Some(download_url),
        r.presigned_url is None,
        public_url@.len() == 0 ==> r.public_url is None,
        public_url@.len() > 0 ==> r.public_url == Some(public_url),
{
    let public = if public_url.unicode_len() == 0 {
        None
    } else {
        Some(public_url)
    };
    UploadFileResponse { object_name: Some(download_url), presigned_url: None, public_url: public }
}

/// The record of an uploaded file, as the file table stores it.
pub struct UploadRecord {
    /// Always `MINIO`.
    pub provider: String,
    pub bucket_name: String,
    /// The storage directory without leading or trailing `/`.
    pub file_directory: String,
    pub file_guid: String,
    /// `{object name}.{extension}` of the stored object.
    pub save_file_name: String,
    pub source_file_name: String,
    pub extension: String,
    /// The number of bytes.
    pub size: i64,
    pub link_url: String,
    /// Lowercase hex of the bytes' SHA-256.
    pub sha256: String,
    pub tenant_id: i64,
}

/// The record of an upload: the MINIO provider, the bucket and download URL
/// the store gave, the directory trimmed of `/`, the stored object's name and
/// extension joined by a dot, the byte count, and the hex SHA-256 of the
/// bytes; an internal error when the byte count does not fit in an `i64`.
pub fn upload_record(
    file_data: &Vec<u8>,
    bucket: &str,
    file_directory: &str,
    object_name: &str,
    extension: &str,
    source_file_name: &str,
    download_url: &str,
    file_guid: String,
    tenant_id: i64,
) -> (r: Result<UploadRecord, AppError>)
    ensures
        file_data.len() > i64::MAX ==> (r matches Err(AppError::Internal { context }) && context@
            == "file size overflow"@),
        file_data.len() <= i64::MAX ==> (r matches Ok(rec) && {
            &&& rec.provider@ == "MINIO"@
            &&& rec.bucket_name@ == bucket@
            &&& rec.file_directory@ == trim_char(file_directory@, '/')
            &&& rec.file_guid == file_guid
            &&& rec.save_file_name@ == object_name@ + "."@ + extension@
            &&& rec.source_file_name@ == source_file_name@
            &&& rec.extension@ == extension@
            &&& rec.size == file_data.len()
            &&& rec.link_url@ == download_url@
            &&& rec.sha256@ == hex_lower(sha256(file_data@))
            &&& rec.tenant_id == tenant_id
        }),
{
    let n: u64 = file_data.len() as u64;
    if n > 9223372036854775807u64 {
        return Err(AppError::Internal { context: String::from_str("file size overflow") });
    }
    let digest = crate::crypto::sha256_digest(file_data.as_slice());
    Ok(
        UploadRecord {
            provider: String::from_str("MINIO"),
            bucket_name: String::from_str(bucket),
            file_directory: trim_char_str(file_directory, '/'),
            file_guid,
            save_file_name: cat3(object_name, ".", extension),
            source_file_name: String::from_str(source_file_name),
            extension: String::from_str(extension),
            size: n as i64,
            link_url: String::from_str(download_url),
            sha256: crate::crypto::hex_encode(digest.as_slice()),
            tenant_id,
        },
    )
}

/// The simple form of a hyphenated UUID: its 32 hex digits without hyphens.
pub open spec fn uuid_simple(s: Seq<char>) -> Seq<char> {
    s.subrange(0, 8) + s.subrange(9, 13) + s.subrange(14, 18) + s.subrange(19, 23) + s.subrange(24, 36)
}

/// A fresh file id: a random (version 4) UUID in its simple form, 32
/// lowercase hex digits.
pub fn file_guid() -> (r: String)
    ensures
        exists|u: Seq<char>| uuid_text(u) && r@ == uuid_simple(u),
        r@.len() == 32,
        forall|i: int| 0 <= i < 32 ==> is_lower_hex(#[trigger] r@[i]),
{
    let u = new_jti();
    let c = chars_of(u.as_str());
    let a = slice_string(&c, 0, 8);
    let b = slice_string(&c, 9, 13);
    let d = slice_string(&c, 14, 18);
    let e = slice_string(&c, 19, 23);
    let f = slice_string(&c, 24, 36);
    let r = cat3(cat3(a.as_str(), b.as_str(), d.as_str()).as_str(), e.as_str(), f.as_str());
    proof {
        let s = u@;
        assert(r@ =~= uuid_simple(s));
        assert forall|i: int| 0 <= i < 32 implies is_lower_hex(#[trigger] r@[i]) by {
            if i < 8 {
                assert(r@[i] == s[i]);
            } else if i < 12 {
                assert(r@[i] == s[i + 1]);
            } else if i < 16 {
                assert(r@[i] == s[i + 2]);
            } else if i < 20 {
                assert(r@[i] == s[i + 3]);
            } else {
                assert(r@[i] == s[i + 4]);
            }
        }
    }
    r
}

/// The answer of a download with the file's bytes: base64 of the bytes,
/// their SHA-256 in hex, their count, and the MIME type
/// (`application/octet-stream` when none is known).
pub fn download_file_response(data: &Vec<u8>, source_file_name: String, mime: String) -> (r: DownloadFileResponse)
    requires
        base64_fits(data.len() as int),
    ensures
        r.file matches Some(f) && f@ == base64_encoding(data@),
        r.download_url is None,
        r.source_file_name == Some(source_file_name),
        r.mime matches Some(m) && m@ == if mime@.len() == 0 {
            "application/octet-stream"@
        } else {
            mime@
        },
        r.size == Some(if data.len() <= i64::MAX { data.len() as i64 } else { 0 }),
        r.checksum matches Some(c) && c@ == hex_lower(sha256(data@)),
        r.storage_path is None,
        r.updated_at is None,
{
    let digest = crate::crypto::sha256_digest(data.as_slice());
    let checksum = crate::crypto::hex_encode(digest.as_slice());
    let n: u64 = data.len() as u64;
    let size: i64 = if n <= 9223372036854775807u64 {
        n as i64
    } else {
        0
    };
    let m = if mime.unicode_len() == 0 {
        String::from_str("application/octet-stream")
    } else {
        mime
    };
    DownloadFileResponse {
        file: Some(crate::crypto::base64_encode(data.as_slice())),
        download_url: None,
        source_file_name: Some(source_file_name),
        mime: Some(m),
        size: Some(size),
        checksum: Some(checksum),
        storage_path: None,
        updated_at: None,
    }
}

/// Whether a download prefers a signed URL (`true` or `1`).
pub fn prefer_presigned(v: Option<&str>) -> (r: bool)
    ensures
        r == (v matches Some(s) && (s@ == "true"@ || s@ == "1"@)),
{
    match v {
        Some(s) => str_eq(s, "true") || str_eq(s, "1"),
        None => false,
    }
}

/// The lifetime of a signed download URL: the parameter when it is an
/// integer, else the default.
pub fn presign_seconds(v: Option<&str>, default: i64) -> (r: i64)
    ensures
        r == match v {
            Some(s) => match parse_i64_spec(s@) {
                Some(n) => n,
                None => default,
            },
            None => default,
        },
{
    match v {
        Some(s) => match parse_i64(s) {
            Some(n) => n,
            None => default,
        },
        None => default,
    }
}

/// What a download reads, by the first selector given (not blank).
pub enum DownloadSelector {
    /// An external URL.
    Url(String),
    /// A stored object: its bucket, and its object name when given, else
    /// its directory (when given) and the source file name.
    StorageObject { bucket: String, object: Option<String>, directory: Option<String>, source_file_name: String },
    /// A file by id.
    FileId(i64),
}

pub open spec fn nonblank(v: Option<&str>) -> bool {
    v matches Some(s) && trim(s@).len() > 0
}

pub open spec fn text_of(v: Option<&str>) -> Seq<char> {
    match v {
        Some(s) => s@,
        None => Seq::<char>::empty(),
    }
}

pub open spec fn owned_opt(v: Option<&str>) -> Option<Seq<char>> {
    match v {
        Some(s) => Some(s@),
        None => None,
    }
}

pub open spec fn view_opt(o: Option<String>) -> Option<Seq<char>> {
    match o {
        Some(x) => Some(x@),
        None => None,
    }
}

fn owned(v: Option<&str>) -> (r: Option<String>)
    ensures
        view_opt(r) == owned_opt(v),
{
    match v {
        Some(s) => Some(String::from_str(s)),
        None => None,
    }
}

fn given(v: Option<&str>) -> (r: bool)
    ensures
        r == nonblank(v),
{
    match v {
        Some(s) => trim_str(s).unicode_len() > 0,
        None => false,
    }
}

/// The selector of a download: a URL, then a bucket, then a file id (which
/// must be an integer once trimmed); without one the request is invalid.
pub fn download_selector(
    download_url: Option<&str>,
    bucket: Option<&str>,
    object_name: Option<&str>,
    file_directory: Option<&str>,
    source_file_name: Option<&str>,
    file_id: Option<&str>,
) -> (r: Result<DownloadSelector, AppError>)
    ensures
        if nonblank(download_url) {
            r matches Ok(DownloadSelector::Url(u)) && u@ == text_of(download_url)
        } else if nonblank(bucket) {
            r matches Ok(DownloadSelector::StorageObject { bucket: b, object, directory, source_file_name: n })
                && b@ == text_of(bucket) && view_opt(object) == owned_opt(object_name) && view_opt(directory)
                == owned_opt(file_directory) && n@ == text_of(source_file_name)
        } else if nonblank(file_id) {
            match parse_i64_spec(trim(text_of(file_id))) {
                Some(n) => r == Ok::<DownloadSelector, AppError>(DownloadSelector::FileId(n)),
                None => r matches Err(e) && is_validation(e, "invalid fileId"@),
            }
        } else {
            r matches Err(e) && is_validation(e, "unknown download selector"@)
        },
{
    if given(download_url) {
        return Ok(DownloadSelector::Url(String::from_str(download_url.unwrap())));
    }
    if given(bucket) {
        let name = match source_file_name {
            Some(s) => String::from_str(s),
            None => String::new(),
        };
        return Ok(
            DownloadSelector::StorageObject {
                bucket: String::from_str(bucket.unwrap()),
                object: owned(object_name),
                directory: owned(file_directory),
                source_file_name: name,
            },
        );
    }
    if given(file_id) {
        return match parse_i64(trim_str(file_id.unwrap()).as_str()) {
            Some(n) => Ok(DownloadSelector::FileId(n)),
            None => Err(AppError::Validation(String::from_str("invalid fileId"))),
        };
    }
    Err(AppError::Validation(String::from_str("unknown download selector")))
}

/// The file name a download is answered with: the last `/` segment.
pub fn last_segment(path: &str) -> (r: String)
    ensures
        r@ == split_char(path@, '/').last(),
{
    let parts = split_char_str(path, '/');
    proof {
        crate::text::lemma_split_nonempty(path@, '/');
    }
    parts[parts.len() - 1].clone()
}

/// The MIME type of a stored object's download: the accepted one when
/// given, else the stored one.
pub fn download_mime(accept: &str, stored: String) -> (r: String)
    ensures
        r@ == if accept@.len() == 0 { stored@ } else { accept@ },
{
    if accept.unicode_len() == 0 {
        stored
    } else {
        String::from_str(accept)
    }
}

/// The check of a signed image request: a signature that does not verify
/// is a missing parameter when one is empty, else forbidden.
pub fn image_signature_check(verified: bool, path: &str, expires: &str, sig: &str) -> (r: Result<(), AppError>)
    ensures
        verified ==> r is Ok,
        !verified && (path@.len() == 0 || expires@.len() == 0 || sig@.len() == 0) ==> (r matches Err(e)
            && is_validation(e, "missing parameters"@)),
        !verified && path@.len() > 0 && expires@.len() > 0 && sig@.len() > 0 ==> (r matches Err(
            AppError::Forbidden(m),
        ) && m@ == "invalid signature"@),
{
    if verified {
        return Ok(());
    }
    if path.unicode_len() == 0 || expires.unicode_len() == 0 || sig.unicode_len() == 0 {
        return Err(AppError::Validation(String::from_str("missing parameters")));
    }
    Err(AppError::Forbidden(String::from_str("invalid signature")))
}

/// The bucket and object of a media path `/bucket/object`: leading `/`s
/// dropped, split at the first `/`, both parts required.
pub open spec fn media_parts(path: Seq<char>) -> Option<(Seq<char>, Seq<char>)> {
    let p = ltrim_by(path, eq_pred('/'));
    let i = first_index(p, '/');
    if i < 0 {
        None
    } else {
        let b = p.subrange(0, i);
        let o = p.subrange(i + 1, p.len() as int);
        if b.len() == 0 || o.len() == 0 {
            None
        } else {
            Some((b, o))
        }
    }
}

pub fn split_media_path(path: &str) -> (r: Result<(String, String), AppError>)
    ensures
        match media_parts(path@) {
            Some((b, o)) => r matches Ok((x, y)) && x@ == b && y@ == o,
            None => r matches Err(e) && is_validation(e, "invalid path"@),
        },
{
    let v = chars_of(path);
    let mut i: usize = 0;
    assert(v@.subrange(0, v.len() as int) =~= path@);
    while i < v.len() && v[i] == '/'
        invariant
            i <= v.len(),
            v@ == path@,
            ltrim_by(path@, eq_pred('/')) == ltrim_by(v@.subrange(i as int, v.len() as int), eq_pred('/')),
        decreases v.len() - i,
    {
        proof {
            let s = v@.subrange(i as int, v.len() as int);
            assert(s[0] == '/');
            assert(s.drop_first() =~= v@.subrange(i + 1, v.len() as int));
        }
        i += 1;
    }
    let p = slice_string(&v, i, v.len());
    proof {
        assert(v@.subrange(0, v.len() as int) =~= v@);
        let s = v@.subrange(i as int, v.len() as int);
        assert(s.len() == 0 || s[0] != '/');
        assert(ltrim_by(s, eq_pred('/')) == s);
    }
    let pv = chars_of(p.as_str());
    match find_char(&pv, '/') {
        None => Err(AppError::Validation(String::from_str("invalid path"))),
        Some(k) => {
            let b = slice_string(&pv, 0, k);
            let o = slice_string(&pv, k + 1, pv.len());
            if b.unicode_len() == 0 || o.unicode_len() == 0 {
                Err(AppError::Validation(String::from_str("invalid path")))
            } else {
                Ok((b, o))
            }
        },
    }
}

} // verus!
