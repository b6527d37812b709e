//! Stored files: object-storage metadata (provider, bucket, directory,
//! names, size and its display form, link, content hash) per tenant.

use vstd::prelude::*;
use vstd::string::*;
use crate::error::{AppError, is_validation};
use crate::handlers::{normalize_upper, upper_enum};
use crate::text::{ascii_upper, i64_decimal, int_decimal};

verus! {

pub struct FileDto {
    pub id: i64,
    pub provider: Option<String>,
    pub bucket_name: Option<String>,
    pub file_directory: Option<String>,
    pub file_guid: Option<String>,
    pub save_file_name: Option<String>,
    pub file_name: Option<String>,
    pub extension: Option<String>,
    pub size: Option<String>,
    pub size_format: Option<String>,
    pub link_url: Option<String>,
    pub content_hash: Option<String>,
    pub tenant_id: Option<i64>,
    pub tenant_name: Option<String>,
    pub created_by: Option<i64>,
    pub updated_by: Option<i64>,
    pub deleted_by: Option<i64>,
    pub created_at: Option<String>,
    pub updated_at: Option<String>,
    pub deleted_at: Option<String>,
}

pub struct FileData {
    pub provider: Option<String>,
    pub bucket_name: Option<String>,
    pub file_directory: Option<String>,
    pub file_guid: Option<String>,
    pub save_file_name: Option<String>,
    pub file_name: Option<String>,
    pub extension: Option<String>,
    pub size: Option<i64>,
    pub size_format: Option<String>,
    pub link_url: Option<String>,
    pub content_hash: Option<String>,
    pub tenant_id: Option<i64>,
}

pub struct CreateFileBody {
    pub data: Option<FileData>,
}

pub struct UpdateFileBody {
    pub id: Option<i64>,
    pub data: Option<FileData>,
    pub allow_missing: Option<bool>,
}

/// A stored file, with the name of its tenant.
pub struct FileRow {
    pub id: i64,
    pub provider: Option<String>,
    pub bucket_name: Option<String>,
    pub file_directory: Option<String>,
    pub file_guid: Option<String>,
    pub save_file_name: Option<String>,
    pub file_name: Option<String>,
    pub extension: Option<String>,
    pub size: Option<i64>,
    pub size_format: Option<String>,
    pub link_url: Option<String>,
    pub content_hash: Option<String>,
    pub tenant_id: Option<i64>,
    pub tenant_name: Option<String>,
    pub created_by: Option<i64>,
    pub updated_by: Option<i64>,
    pub deleted_by: Option<i64>,
    pub created_at: Option<String>,
    pub updated_at: Option<String>,
    pub deleted_at: Option<String>,
}

pub fn to_dto(row: &FileRow) -> (d: FileDto)
    ensures
        d.id == row.id,
        d.provider == row.provider,
        d.bucket_name == row.bucket_name,
        d.file_directory == row.file_directory,
        d.file_guid == row.file_guid,
        d.save_file_name == row.save_file_name,
        d.file_name == row.file_name,
        d.extension == row.extension,
        match row.size {
            Some(n) => d.size matches Some(s) && s@ == int_decimal(n as int),
            None => d.size is None,
        },
        d.size_format == row.size_format,
        d.link_url == row.link_url,
        d.content_hash == row.content_hash,
        d.tenant_id == row.tenant_id,
        d.tenant_name == row.tenant_name,
        d.created_by == row.created_by,
        d.updated_by == row.updated_by,
        d.deleted_by == row.deleted_by,
        d.created_at == row.created_at,
        d.updated_at == row.updated_at,
        d.deleted_at == row.deleted_at,
{
    FileDto {
        id: row.id,
        provider: row.provider.clone(),
        bucket_name: row.bucket_name.clone(),
        file_directory: row.file_directory.clone(),
        file_guid: row.file_guid.clone(),
        save_file_name: row.save_file_name.clone(),
        file_name: row.file_name.clone(),
        extension: row.extension.clone(),
        size: match row.size {
            Some(n) => Some(i64_decimal(n)),
            None => None,
        },
        size_format: row.size_format.clone(),
        link_url: row.link_url.clone(),
        content_hash: row.content_hash.clone(),
        tenant_id: row.tenant_id,
        tenant_name: row.tenant_name.clone(),
        created_by: row.created_by,
        updated_by: row.updated_by,
        deleted_by: row.deleted_by,
        created_at: row.created_at.clone(),
        updated_at: row.updated_at.clone(),
        deleted_at: row.deleted_at.clone(),
    }
}



pub open spec fn provider_ok(u: Seq<char>) -> bool {
    u == "UNKNOWN"@ || u == "MINIO"@ || u == "ALIYUN"@ || u == "QINIU"@ || u == "TENCENT"@ || u
        == "AWS"@ || u == "GOOGLE"@ || u == "AZURE"@ || u == "BAIDU"@ || u == "HUAWEI"@ || u
        == "LOCAL"@
}

/// Accepts an object-storage provider by its proto enum name.
pub fn normalize_provider(v: &str) -> (r: Result<String, AppError>)
    ensures
        upper_enum(r, v@, |u: Seq<char>| provider_ok(u), "invalid provider: "@),
{
    normalize_upper(
        v,
        &["UNKNOWN", "MINIO", "ALIYUN", "QINIU", "TENCENT", "AWS", "GOOGLE", "AZURE", "BAIDU", "HUAWEI", "LOCAL"],
        "invalid provider: ",
    )
}

/// The provider of a new file: the given one normalised, else MINIO.
pub fn create_provider(provider: &Option<String>) -> (r: Result<String, AppError>)
    ensures
        match provider {
            Some(p) => upper_enum(r, p@, |u: Seq<char>| provider_ok(u), "invalid provider: "@),
            None => r matches Ok(x) && x@ == "MINIO"@,
        },
{
    match provider {
        Some(p) => normalize_provider(p.as_str()),
        None => Ok(String::from_str("MINIO")),
    }
}

/// The provider that an update writes: the given one normalised; none keeps
/// the stored one.
pub fn update_provider(provider: &Option<String>) -> (r: Result<Option<String>, AppError>)
    ensures
        match provider {
            Some(p) => match r {
                Ok(Some(x)) => provider_ok(ascii_upper(p@)) && x@ == ascii_upper(p@),
                Ok(None) => false,
                Err(e) => !provider_ok(ascii_upper(p@)) && is_validation(e, "invalid provider: "@ + p@),
            },
            None => r matches Ok(x) && x is None,
        },
{
    match provider {
        Some(p) => Ok(Some(normalize_provider(p.as_str())?)),
        None => Ok(None),
    }
}

} // verus!
