//! Plain records exchanged with callers and collaborators.

use vstd::prelude::*;

verus! {

/// Settings of the service process.
pub struct Config {
    pub port: u16,
    pub database_path: String,
    pub data_dir: String,
    pub temp_dir: String,
    pub max_file_size: usize,
    pub max_concurrent_downloads: usize,
}

pub const DEFAULT_PORT: u16 = 8080;

pub const DEFAULT_MAX_FILE_SIZE: usize = 2147483648;

pub const DEFAULT_MAX_CONCURRENT_DOWNLOADS: usize = 10;

impl Config {
    /// Settings from optional overrides, with the defaults for those absent;
    /// the database lives in the data directory.
    pub fn from_values(
        port: Option<u16>,
        data_dir: Option<String>,
        temp_dir: String,
        max_file_size: Option<usize>,
        max_concurrent_downloads: Option<usize>,
    ) -> (r: Config)
        ensures
            r.port == match port {
                Some(p) => p,
                None => DEFAULT_PORT,
            },
            r.data_dir@ == match data_dir {
                Some(d) => d@,
                None => "./data"@,
            },
            r.database_path@ == r.data_dir@ + "/ipa-webtool.db"@,
            r.temp_dir@ == temp_dir@,
            r.max_file_size == match max_file_size {
                Some(m) => m,
                None => DEFAULT_MAX_FILE_SIZE,
            },
            r.max_concurrent_downloads == match max_concurrent_downloads {
                Some(m) => m,
                None => DEFAULT_MAX_CONCURRENT_DOWNLOADS,
            },
    {
        let data_dir = match data_dir {
            Some(d) => d,
            None => String::from_str("./data"),
        };
        let database_path = crate::text::join2(data_dir.as_str(), "/ipa-webtool.db");
        Config {
            port: match port {
                Some(p) => p,
                None => DEFAULT_PORT,
            },
            database_path,
            data_dir,
            temp_dir,
            max_file_size: match max_file_size {
                Some(m) => m,
                None => DEFAULT_MAX_FILE_SIZE,
            },
            max_concurrent_downloads: match max_concurrent_downloads {
                Some(m) => m,
                None => DEFAULT_MAX_CONCURRENT_DOWNLOADS,
            },
        }
    }
}

/// An authenticated account and its session artifacts.
pub struct Account {
    pub id: Option<i64>,
    pub token: String,
    pub email: String,
    pub region: String,
    pub guid: Option<String>,
    pub cookie_user: Option<String>,
    pub cookies: Option<String>,
    pub created_at: Option<String>,
    pub updated_at: Option<String>,
}

/// Stored, encrypted account credentials.
pub struct Credentials {
    pub id: Option<i64>,
    pub email: String,
    pub password_encrypted: String,
    pub key_id: String,
    pub iv: String,
    pub auth_tag: String,
    pub created_at: Option<String>,
    pub updated_at: Option<String>,
}

/// A persisted key record.
pub struct EncryptionKey {
    pub id: Option<i64>,
    pub key_id: String,
    pub key_value: String,
    pub is_current: bool,
    pub created_at: Option<String>,
    pub last_rotation: i64,
    pub next_rotation: i64,
}

/// A persisted record of one download.
pub struct DownloadRecord {
    pub id: Option<i64>,
    pub app_name: String,
    pub app_id: String,
    pub bundle_id: Option<String>,
    pub version: Option<String>,
    pub account_email: String,
    pub account_region: Option<String>,
    pub download_date: Option<String>,
    pub status: String,
    pub file_size: Option<i64>,
    pub install_url: Option<String>,
    pub artwork_url: Option<String>,
    pub artist_name: Option<String>,
    pub progress: Option<i64>,
    pub error: Option<String>,
    pub created_at: Option<String>,
}

/// One published version of an application.
pub struct VersionInfo {
    pub bundle_version: String,
    pub external_identifier: i64,
    pub size: i64,
    pub created_at: String,
}

/// The versions known for an application in a region.
pub struct VersionsResponse {
    pub ok: bool,
    pub total: usize,
    pub data: Vec<VersionInfo>,
    pub region: String,
}

pub struct DownloadUrlResponse {
    pub ok: bool,
    pub url: Option<String>,
    pub error: Option<String>,
    pub needs_purchase: Option<bool>,
}

pub struct LoginRequest {
    pub email: String,
    pub password: String,
    pub region: Option<String>,
}

pub struct VerifyCodeRequest {
    pub token: String,
    pub code: String,
}

pub struct LoginResponse {
    pub ok: bool,
    pub token: Option<String>,
    pub error: Option<String>,
    pub needs_code: Option<bool>,
}

pub struct StatusResponse {
    pub ok: bool,
    pub authenticated: Option<bool>,
    pub email: Option<String>,
    pub region: Option<String>,
}

/// Account identity attached to a package.
pub struct Metadata {
    pub apple_id: String,
    pub user_name: String,
}

/// A version is listed when it has a version string and a positive
/// identifier.
pub open spec fn listable(v: VersionInfo) -> bool {
    v.bundle_version@.len() > 0 && v.external_identifier > 0
}

/// The listable versions, in the order given.
pub fn usable_versions(all: Vec<VersionInfo>) -> (r: Vec<VersionInfo>)
    ensures
        r@ == all@.filter(|v: VersionInfo| listable(v)),
{
    let ghost orig = all@;
    let mut rest = all;
    let mut kept: Vec<VersionInfo> = Vec::new();
    let mut tail: Vec<VersionInfo> = Vec::new();
    // Take the versions from the back, then restore their order.
    while rest.len() > 0
        invariant
            orig == rest@ + tail@.reverse(),
        decreases rest@.len(),
    {
        let v = rest.pop().unwrap();
        proof {
            assert(orig =~= rest@ + (tail@.push(v)).reverse()) by {
                assert((tail@.push(v)).reverse() =~= seq![v] + tail@.reverse());
            }
        }
        tail.push(v);
    }
    proof {
        assert(orig =~= tail@.reverse());
    }
    while tail.len() > 0
        invariant
            kept@ == orig.subrange(0, orig.len() - tail@.len()).filter(
                |v: VersionInfo| listable(v),
            ),
            tail@.len() <= orig.len(),
            orig.subrange(orig.len() - tail@.len(), orig.len() as int) == tail@.reverse(),
        decreases tail@.len(),
    {
        let ghost before = tail@;
        let v = tail.pop().unwrap();
        proof {
            let k = orig.len() - before.len();
            assert(orig[k] == before.reverse()[0]);
            assert(before.reverse()[0] == v);
            assert(orig.subrange(0, k + 1).drop_last() =~= orig.subrange(0, k));
            assert(tail@ == before.drop_last());
            assert(tail@.reverse() =~= before.reverse().drop_first());
            assert(orig.subrange(k + 1, orig.len() as int) =~= orig.subrange(k, orig.len() as int).drop_first());
            assert(orig.subrange(k + 1, orig.len() as int) =~= tail@.reverse());
            orig.subrange(0, k).lemma_filter_push(v, |v: VersionInfo| listable(v));
            assert(orig.subrange(0, k + 1) =~= orig.subrange(0, k).push(v));
        }
        if v.bundle_version.unicode_len() > 0 && v.external_identifier > 0 {
            kept.push(v);
        }
    }
    proof {
        assert(orig.subrange(0, orig.len() as int) =~= orig);
    }
    kept
}

impl VersionsResponse {
    /// The response listing the listable versions of `all` for `region`.
    pub fn from_versions(all: Vec<VersionInfo>, region: String) -> (r: VersionsResponse)
        ensures
            r.ok,
            r.data@ == all@.filter(|v: VersionInfo| listable(v)),
            r.total == r.data@.len(),
            r.region@ == region@,
    {
        let data = usable_versions(all);
        VersionsResponse { ok: true, total: data.len(), data, region }
    }
}

/// The envelope of every reply of the service's own interface.
pub struct ApiResponse<T> {
    pub ok: bool,
    pub data: Option<T>,
    pub error: Option<String>,
}

impl<T> ApiResponse<T> {
    /// A successful reply carrying `data`.
    pub fn success(data: T) -> (r: ApiResponse<T>)
        ensures
            r.ok,
            r.data == Some(data),
            r.error is None,
    {
        ApiResponse { ok: true, data: Some(data), error: None }
    }

    /// A failed reply carrying the message `error`.
    pub fn error(error: String) -> (r: ApiResponse<T>)
        ensures
            !r.ok,
            r.data is None,
            r.error == Some(error),
    {
        ApiResponse { ok: false, data: None, error: Some(error) }
    }
}

} // verus!
