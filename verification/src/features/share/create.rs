//! Creating a share: what the form must hold, how the stored record is
//! prepared (hashed password, IP and token, encrypted note), how long it
//! lives, and what the creator gets back.

use crate::features::share::form::{flag, ShareForm};
use crate::features::share::retrieve::{ip_check, password_check, HashCheck};
use crate::features::storage::config::{FileDownloadMode, FileUploadConfig};
use crate::features::storage::error::StorageError;
use crate::features::storage::ratelimit::RateLimitExceeded;
use crate::text::{copy_str, push_str, to_chars, trim, trim_str};
use crate::utility::encoding::{base64_encode, base64_encode_spec, str_bytes};
use crate::utility::encrypt::{decrypts_to, encrypt, is_sealed_note, AES_GCM_P_MAX, NONCE_SIZE, TAG_SIZE};
use crate::utility::format::{decimal, u64_to_string};
use crate::utility::url::{url, url_spec, SiteConfig};
use crate::utility::hash::{hash, hash_spec};
use crate::web::response::ApiError;
use vstd::prelude::*;

verus! {

pub const DEFAULT_EXPIRY_MINUTES: u64 = 10;

pub const SECONDS_PER_MINUTE: u64 = 60;

pub struct ShareCreate;

/// A note counts when it holds something besides whitespace.
pub open spec fn has_text(note: Option<String>) -> bool {
    match note {
        Some(n) => trim(n@).len() > 0,
        None => false,
    }
}

pub fn note_has_text(note: &Option<String>) -> (res: bool)
    ensures
        res == has_text(*note),
{
    match note {
        Some(n) => trim_str(n.as_str()).len() > 0,
        None => false,
    }
}

/// What a create request must satisfy before anything is stored.
pub open spec fn requirement_denial(form: ShareForm, has_file_upload: bool, upload_available: bool, mode: FileDownloadMode) -> Option<(u16, Seq<char>)> {
    if flag(form.require_password) && form.password is None {
        Some((400u16, "پسورد الزامی می باشد."@))
    } else if flag(form.restrict_ip) && form.ip is None {
        Some((400u16, "آدرس آی پی الزامی می باشد."@))
    } else if !has_text(form.note) && !has_file_upload {
        Some((400u16, "متن یا فایل الزامی است."@))
    } else if has_file_upload && !upload_available {
        Some((400u16, "آپلود فایل غیرفعال است."@))
    } else if has_file_upload && (flag(form.require_password) || flag(form.restrict_ip) || flag(
        form.one_time_use,
    )) && mode == FileDownloadMode::Direct {
        Some(
            (
                400u16,
                "برای فایل با پسورد، محدودیت IP یا یک‌بارمصرف، FILE_DOWNLOAD_MODE باید proxy باشد."@,
            ),
        )
    } else {
        None
    }
}

/// The outcome of hashing one value (the hashing itself is done by the
/// caller): the hash, or a failure.
pub type HashOutcome = Result<String, ()>;

/// The stored record prepared from a form: password and IP replaced by their
/// hashes when protection is on, the note encrypted under the share key (a
/// blank note dropped), and the hash of the share key as deletion token.
pub open spec fn prepared_fields_match(form: ShareForm, key: Seq<char>, pw_hash: HashOutcome, ip_hash: HashOutcome, token_hash: HashOutcome, data: ShareForm) -> bool {
    &&& data.expiry == form.expiry
    &&& data.max_views == form.max_views
    &&& data.viewed == form.viewed
    &&& data.downloaded == form.downloaded
    &&& data.one_time_use == form.one_time_use
    &&& data.restrict_ip == form.restrict_ip
    &&& data.require_password == form.require_password
    &&& data.file_stored_name == form.file_stored_name
    &&& data.file_original_name == form.file_original_name
    &&& data.file_size == form.file_size
    &&& data.password == (if flag(form.require_password) && form.password is Some {
        Some(pw_hash->Ok_0)
    } else {
        form.password
    })
    &&& data.ip == (if flag(form.restrict_ip) && form.ip is Some {
        Some(ip_hash->Ok_0)
    } else {
        form.ip
    })
    &&& data.token == Some(token_hash->Ok_0)
    &&& match form.note {
        None => data.note is None,
        Some(n) => if trim(n@).len() == 0 {
            data.note is None
        } else {
            data.note matches Some(c) && is_sealed_note(c@, n@, key)
        },
    }
}

/// The secrets of a prepared record are the hashes of the form's values
/// under the server secret: the password when a password is required, the
/// IP when access is restricted to it, and the share key as token; values
/// that are not protected are kept as the form has them.
pub open spec fn secrets_hashed(form: ShareForm, key: Seq<char>, secret: Seq<char>, data: ShareForm) -> bool {
    &&& if flag(form.require_password) && form.password is Some {
        data.password matches Some(h) && h@ == hash_spec(secret, form.password->Some_0@)
    } else {
        data.password == form.password
    }
    &&& if flag(form.restrict_ip) && form.ip is Some {
        data.ip matches Some(h) && h@ == hash_spec(secret, form.ip->Some_0@)
    } else {
        data.ip == form.ip
    }
    &&& data.token matches Some(t) && t@ == hash_spec(secret, key)
}

/// Everything of a prepared record but its hashed secrets: the form's other
/// fields unchanged, and the note encrypted under the share key (a blank
/// note dropped).
pub open spec fn prepared_other_fields(form: ShareForm, key: Seq<char>, data: ShareForm) -> bool {
    &&& data.expiry == form.expiry
    &&& data.max_views == form.max_views
    &&& data.viewed == form.viewed
    &&& data.downloaded == form.downloaded
    &&& data.one_time_use == form.one_time_use
    &&& data.restrict_ip == form.restrict_ip
    &&& data.require_password == form.require_password
    &&& data.file_stored_name == form.file_stored_name
    &&& data.file_original_name == form.file_original_name
    &&& data.file_size == form.file_size
    &&& match form.note {
        None => data.note is None,
        Some(n) => if trim(n@).len() == 0 {
            data.note is None
        } else {
            data.note matches Some(c) && is_sealed_note(c@, n@, key)
        },
    }
}

/// Which preparation step fails first, if any.
pub open spec fn preparation_failure(form: ShareForm, pw_hash: HashOutcome, ip_hash: HashOutcome, token_hash: HashOutcome) -> Option<Seq<char>> {
    if flag(form.require_password) && form.password is Some && pw_hash is Err {
        Some("Failed to hash password"@)
    } else if flag(form.restrict_ip) && form.ip is Some && ip_hash is Err {
        Some("Failed to hash IP"@)
    } else if has_text(form.note) && vstd::utf8::encode_utf8(form.note->Some_0@).len() > AES_GCM_P_MAX {
        Some("Failed to encrypt note"@)
    } else if token_hash is Err {
        Some("Failed to hash token"@)
    } else {
        None
    }
}

/// The token handed to the creator: base64 of the stored token hash.
pub open spec fn issued_token(data: ShareForm) -> Seq<char> {
    match data.token {
        Some(t) => base64_encode_spec(vstd::utf8::encode_utf8(t@)),
        None => Seq::<char>::empty(),
    }
}

/// How long a share lives, in seconds: the chosen expiry, ten minutes by default.
pub open spec fn expiry_seconds(form: ShareForm) -> nat {
    match form.expiry {
        Some(e) => e.minutes() * 60,
        None => 600,
    }
}

/// Every share expires: it lives at least five minutes and at most a day.
pub proof fn law_expiry_within_a_day(form: ShareForm)
    ensures
        300 <= expiry_seconds(form) <= 86400,
{
}

/// The note a share is created with is what its stored record decrypts to
/// under the share key; a blank note is not stored.
pub proof fn law_stored_note_reads_back(form: ShareForm, key: Seq<char>, pw_hash: HashOutcome, ip_hash: HashOutcome, token_hash: HashOutcome, data: ShareForm)
    requires
        prepared_fields_match(form, key, pw_hash, ip_hash, token_hash, data),
    ensures
        has_text(form.note) ==> (data.note matches Some(c) && decrypts_to(c@, key, form.note->Some_0@)),
        !has_text(form.note) ==> data.note is None,
{
    if has_text(form.note) {
        let c = data.note->Some_0;
        crate::utility::encrypt::law_sealed_note_decrypts(c@, form.note->Some_0@, key);
    }
}

/// A share prepared under the server secret opens with what it was created
/// with: the form's password passes the password check, the creator's IP
/// passes the IP check, and the issued token is the base64 of the share
/// key's hash.
pub proof fn law_created_share_opens(form: ShareForm, key: Seq<char>, secret: Seq<char>, data: ShareForm)
    requires
        prepared_other_fields(form, key, data),
        secrets_hashed(form, key, secret, data),
    ensures
        form.password matches Some(p) ==> password_check(secret, data, Some(p@)) == HashCheck::Match,
        form.ip matches Some(i) ==> ip_check(secret, data, i@) == HashCheck::Match,
        issued_token(data) == base64_encode_spec(vstd::utf8::encode_utf8(hash_spec(secret, key))),
{
}

/// What the creator receives: the share key, its link and the deletion token.
#[derive(Debug)]
pub struct CreatedShare {
    pub id: String,
    pub url: String,
    pub token: String,
}

impl ShareCreate {
    /// The checks on a create request: password and IP present when
    /// required, some text or a file, uploads available for a file, and
    /// proxy downloads for a protected file.
    pub fn validate_requirements(form: &ShareForm, has_file_upload: bool, config: &FileUploadConfig) -> (res: Result<(), ApiError>)
        ensures
            match requirement_denial(
                *form,
                has_file_upload,
                config.upload_enabled && config.allowed_extensions.elements().len() > 0,
                config.download_mode,
            ) {
                Some(d) => res matches Err(e) && e.is(d.0, d.1),
                None => res is Ok,
            },
    {
        if form.require_password.unwrap_or(false) && form.password.is_none() {
            return Err(ApiError::new(400, "پسورد الزامی می باشد."));
        }
        if form.restrict_ip.unwrap_or(false) && form.ip.is_none() {
            return Err(ApiError::new(400, "آدرس آی پی الزامی می باشد."));
        }
        let has_note = note_has_text(&form.note);
        if !has_note && !has_file_upload {
            return Err(ApiError::new(400, "متن یا فایل الزامی است."));
        }
        if has_file_upload && !config.is_upload_available() {
            return Err(ApiError::new(400, "آپلود فایل غیرفعال است."));
        }
        if has_file_upload {
            let needs_proxy = FileUploadConfig::file_requires_proxy_download(
                form.require_password.unwrap_or(false),
                form.restrict_ip.unwrap_or(false),
                form.one_time_use.unwrap_or(false),
            );
            if needs_proxy && config.download_mode == FileDownloadMode::Direct {
                return Err(
                    ApiError::new(
                        400,
                        "برای فایل با پسورد، محدودیت IP یا یک‌بارمصرف، FILE_DOWNLOAD_MODE باید proxy باشد.",
                    ),
                );
            }
        }
        Ok(())
    }

    /// Prepares the record to store. `pw_hash`, `ip_hash` and `token_hash`
    /// are the outcomes of hashing the form's password, the form's IP and
    /// the share key; each is used only where the form's value is hashed.
    pub fn prepare_data(form: &ShareForm, key: &str, pw_hash: &HashOutcome, ip_hash: &HashOutcome, token_hash: &HashOutcome) -> (res: Result<ShareForm, ApiError>)
        requires
            match form.note {
                Some(n) => vstd::utf8::encode_utf8(n@).len() + NONCE_SIZE + TAG_SIZE <= usize::MAX / 4 * 3,
                None => true,
            },
        ensures
            match preparation_failure(*form, *pw_hash, *ip_hash, *token_hash) {
                Some(m) => res matches Err(e) && e.is(500, m),
                None => res matches Ok(data) && prepared_fields_match(
                    *form,
                    key@,
                    *pw_hash,
                    *ip_hash,
                    *token_hash,
                    data,
                ),
            },
    {
        let mut data = form.clone();
        if form.require_password.unwrap_or(false) && form.password.is_some() {
            match pw_hash {
                Ok(h) => {
                    data.password = Some(h.clone());
                },
                Err(_) => {
                    return Err(ApiError::new(500, "Failed to hash password"));
                },
            }
        }
        if form.restrict_ip.unwrap_or(false) && form.ip.is_some() {
            match ip_hash {
                Ok(h) => {
                    data.ip = Some(h.clone());
                },
                Err(_) => {
                    return Err(ApiError::new(500, "Failed to hash IP"));
                },
            }
        }
        match &form.note {
            Some(note) => {
                if trim_str(note.as_str()).len() > 0 {
                    match encrypt(note.as_str(), key) {
                        Ok(c) => {
                            data.note = Some(c);
                        },
                        Err(_) => {
                            return Err(ApiError::new(500, "Failed to encrypt note"));
                        },
                    }
                } else {
                    data.note = None;
                }
            },
            None => {},
        }
        match token_hash {
            Ok(h) => {
                data.token = Some(h.clone());
            },
            Err(_) => {
                return Err(ApiError::new(500, "Failed to hash token"));
            },
        }
        Ok(data)
    }

    /// Prepares the record to store with the secrets hashed under the server
    /// secret (`hash`): it fails only when the note is too long to encrypt.
    pub fn prepare_record(form: &ShareForm, key: &str, secret: &str) -> (res: Result<ShareForm, ApiError>)
        requires
            match form.note {
                Some(n) => vstd::utf8::encode_utf8(n@).len() + NONCE_SIZE + TAG_SIZE <= usize::MAX / 4 * 3,
                None => true,
            },
        ensures
            has_text(form.note) && vstd::utf8::encode_utf8(form.note->Some_0@).len() > AES_GCM_P_MAX
                ==> (res matches Err(e) && e.is(500, "Failed to encrypt note"@)),
            !(has_text(form.note) && vstd::utf8::encode_utf8(form.note->Some_0@).len() > AES_GCM_P_MAX)
                ==> (res matches Ok(data) && prepared_other_fields(*form, key@, data) && secrets_hashed(
                *form,
                key@,
                secret@,
                data,
            )),
    {
        let pw_hash: HashOutcome = match &form.password {
            Some(p) => Ok(hash(secret, p.as_str())),
            None => Err(()),
        };
        let ip_hash: HashOutcome = match &form.ip {
            Some(v) => Ok(hash(secret, v.as_str())),
            None => Err(()),
        };
        let token_hash: HashOutcome = Ok(hash(secret, key));
        Self::prepare_data(form, key, &pw_hash, &ip_hash, &token_hash)
    }

    /// How long the share lives, in seconds: the chosen expiry, ten minutes by default.
    pub fn calculate_expiry(form: &ShareForm) -> (res: u64)
        ensures
            res == expiry_seconds(*form),
    {
        match &form.expiry {
            Some(exp) => exp.as_seconds(),
            None => DEFAULT_EXPIRY_MINUTES * SECONDS_PER_MINUTE,
        }
    }

    /// The key, link and token given back to the creator.
    pub fn build_response(site: &SiteConfig, key: &str, data: &ShareForm) -> (res: CreatedShare)
        requires
            match data.token {
                Some(t) => vstd::utf8::encode_utf8(t@).len() <= usize::MAX / 4 * 3,
                None => true,
            },
        ensures
            res.id@ == key@,
            res.url@ == url_spec(*site, "/c/"@ + key@),
            res.token@ == issued_token(*data),
    {
        let token = match &data.token {
            Some(t) => {
                let bytes = str_bytes(t.as_str());
                base64_encode(bytes.as_slice())
            },
            None => String::new(),
        };
        let mut path = copy_str("/c/");
        push_str(&mut path, key);
        CreatedShare { id: copy_str(key), url: url(site, path.as_str()), token }
    }

    /// What the platform statistics record of a new share: whether it has
    /// text, and the size of its file when it is not empty.
    pub fn stats_delta(data: &ShareForm) -> (res: (bool, Option<u64>))
        ensures
            res.0 == has_text(data.note),
            res.1 == match data.file_size {
                Some(s) => if s > 0 {
                    Some(s)
                } else {
                    None
                },
                None => None,
            },
    {
        let has_text = note_has_text(&data.note);
        let size = match data.file_size {
            Some(s) => if s > 0 {
                Some(s)
            } else {
                None
            },
            None => None,
        };
        (has_text, size)
    }
}

/// The message of an upload refused by its rate limit.
pub open spec fn upload_rate_message(retry_after_secs: u64) -> Seq<char> {
    "تعداد درخواست‌های آپلود شما بیش از حد مجاز است. لطفاً "@ + decimal(retry_after_secs as nat)
        + " ثانیه دیگر تلاش کنید."@
}

/// The status a create request answers with for a storage error.
pub open spec fn storage_status(err: StorageError) -> u16 {
    match err {
        StorageError::FileTooLarge | StorageError::InvalidExtension(_) | StorageError::UploadDisabled => 400u16,
        _ => 500u16,
    }
}

/// The answer to an upload over its rate limit.
pub fn rate_limit_to_response(err: RateLimitExceeded) -> (res: ApiError)
    ensures
        res.is(429, upload_rate_message(err.retry_after_secs)),
{
    let mut m = copy_str("تعداد درخواست‌های آپلود شما بیش از حد مجاز است. لطفاً ");
    let n = u64_to_string(err.retry_after_secs);
    push_str(&mut m, n.as_str());
    push_str(&mut m, " ثانیه دیگر تلاش کنید.");
    ApiError { status: 429, message: m }
}

/// The answer to a storage failure during a create request.
pub fn storage_to_response(err: StorageError) -> (res: ApiError)
    ensures
        res.is(storage_status(err), err.text()),
{
    ApiError { status: err.status(), message: err.message() }
}

} // verus!
