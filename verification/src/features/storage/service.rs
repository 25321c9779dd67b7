//! The storage service's decisions: whether an upload may be stored, under
//! which name, and where it is downloaded from.

use crate::features::storage::backend::{path_join, upload_temp_dir};
use crate::features::storage::config::{saturating_mul, FileDownloadMode, FileUploadConfig};
use crate::features::storage::error::StorageError;
use crate::features::storage::extension::{refusal_matches, upload_outcome, validate_upload};
use crate::text::{
    after_last, after_last_chars, copy_str, from_chars, push_char, push_chars, push_str, to_chars,
    trim, trim_chars, trim_start_by, trim_start_chars, CharClass,
};
use crate::utility::url::{url, url_spec, SiteConfig};
use vstd::prelude::*;

verus! {

/// File staged on disk during multipart parse, not held in memory.
#[derive(Debug)]
pub struct UploadedFile {
    pub original_name: String,
    pub temp_path: String,
    pub size: u64,
}

pub struct StorageService {
    pub config: FileUploadConfig,
}

pub open spec fn is_lower_hex_or_hyphen(c: char) -> bool {
    ('0' <= c <= '9') || ('a' <= c <= 'f') || c == '-'
}

/// Calls `Uuid::new_v4()` and formats it: 36 characters of lower-case hex
/// digits and hyphens. The value is random; only its shape is stated.
#[verifier::external_body]
fn new_uuid_string() -> (res: String)
    ensures
        res@.len() == 36,
        forall|i: int| 0 <= i < 36 ==> is_lower_hex_or_hyphen(#[trigger] res@[i]),
{
    uuid::Uuid::new_v4().to_string()
}

/// `name` is a name for a stored file with extension `ext`: 36 characters
/// of lower-case hex digits and hyphens, `.`, and the extension without its
/// leading dots.
pub open spec fn is_stored_name_for(name: Seq<char>, ext: Seq<char>) -> bool {
    &&& name.len() == 37 + trim_start_by(ext, CharClass::Exactly('.')).len()
    &&& name.skip(36) == seq!['.'] + trim_start_by(ext, CharClass::Exactly('.'))
    &&& forall|i: int| 0 <= i < 36 ==> is_lower_hex_or_hyphen(#[trigger] name[i])
}

/// A fresh name for a stored file: a random UUID, `.`, and the extension
/// without its leading dots.
pub fn generate_stored_name(extension: &str) -> (res: String)
    ensures
        is_stored_name_for(res@, extension@),
{
    let ext = trim_start_chars(to_chars(extension).as_slice(), CharClass::Exactly('.'));
    let mut name = new_uuid_string();
    let ghost id = name@;
    push_char(&mut name, '.');
    push_chars(&mut name, ext.as_slice());
    assert(name@.skip(36) =~= seq!['.'] + ext@);
    name
}

/// The file name shown for an original name: its last path segment.
pub open spec fn display_name_of(original: Seq<char>) -> Seq<char> {
    after_last(original, CharClass::PathSeparator)
}

/// What the download URL of a stored file is: the proxy route of the share
/// when proxying is forced or configured; otherwise the public base URL
/// (trimmed, with a trailing slash) followed by the stored name, or nothing
/// when no base URL is configured.
pub open spec fn download_url_spec(config: FileUploadConfig, site: SiteConfig, stored_name: Seq<char>, share_key: Seq<char>, force_proxy: bool) -> Option<Seq<char>> {
    if force_proxy || config.download_mode == FileDownloadMode::Proxy {
        Some(url_spec(site, "/c/"@ + share_key + "/file"@))
    } else {
        let base = trim(config.public_base_url@);
        if base.len() == 0 {
            None
        } else if base.last() == '/' {
            Some(base + stored_name)
        } else {
            Some(base + seq!['/'] + stored_name)
        }
    }
}

/// Uploads are available: enabled, with some extension allowed.
pub open spec fn upload_available(config: FileUploadConfig) -> bool {
    config.upload_enabled && config.allowed_extensions.elements().len() > 0
}

impl StorageService {
    pub fn new(config: FileUploadConfig) -> (res: Self)
        ensures
            res.config == config,
    {
        StorageService { config }
    }

    pub fn config(&self) -> (res: &FileUploadConfig)
        ensures
            *res == self.config,
    {
        &self.config
    }

    pub fn upload_temp_directory(&self) -> (res: String)
        ensures
            res@ == path_join(self.config.storage.local_root@, ".tmp"@),
    {
        upload_temp_dir(self.config.storage.local_root.as_str())
    }

    /// Refuses an upload when uploads are not available (disabled, or no
    /// extension allowed) or the file is larger than the limit.
    pub fn upload_precheck(&self, size: u64) -> (res: Result<(), StorageError>)
        ensures
            !upload_available(self.config) ==> res matches Err(StorageError::UploadDisabled),
            upload_available(self.config) && size > saturating_mul(self.config.max_size_mb, 1048576)
                ==> res matches Err(StorageError::FileTooLarge),
            upload_available(self.config) && size <= saturating_mul(self.config.max_size_mb, 1048576)
                ==> res is Ok,
    {
        if !self.config.is_upload_available() {
            return Err(StorageError::UploadDisabled);
        }
        if size > self.config.max_size_bytes() {
            return Err(StorageError::FileTooLarge);
        }
        Ok(())
    }

    /// The name under which an upload that passed `upload_precheck` is
    /// stored, given its original name and first bytes: every check of
    /// `validate_upload` passes, and a fresh name with the checked extension
    /// is made.
    pub fn stored_name_for(&self, original_name: &str, header: &[u8]) -> (res: Result<String, StorageError>)
        ensures
            match upload_outcome(original_name@, self.config.allowed_extensions, Some(header@)) {
                Ok(e) => res matches Ok(n) && is_stored_name_for(n@, e),
                Err(why) => res matches Err(err) && refusal_matches(err, why),
            },
    {
        match validate_upload(original_name, &self.config.allowed_extensions, Some(header)) {
            Ok(ext) => Ok(generate_stored_name(ext.as_str())),
            Err(e) => Err(e),
        }
    }

    pub fn build_download_url(&self, site: &SiteConfig, stored_name: &str, share_key: &str, force_proxy: bool) -> (res: Option<String>)
        ensures
            match download_url_spec(self.config, *site, stored_name@, share_key@, force_proxy) {
                Some(u) => res matches Some(r) && r@ == u,
                None => res is None,
            },
    {
        let proxy = force_proxy || self.config.download_mode == FileDownloadMode::Proxy;
        if proxy {
            let mut path = copy_str("/c/");
            push_str(&mut path, share_key);
            push_str(&mut path, "/file");
            return Some(url(site, path.as_str()));
        }
        let base = trim_chars(to_chars(self.config.public_base_url.as_str()).as_slice(), CharClass::Whitespace);
        if base.len() == 0 {
            return None;
        }
        let mut out = from_chars(base.as_slice());
        if base[base.len() - 1] != '/' {
            push_char(&mut out, '/');
        }
        push_str(&mut out, stored_name);
        Some(out)
    }

    /// The file name shown to users: the last path segment of the original name.
    pub fn display_filename(original: &str) -> (res: String)
        ensures
            res@ == display_name_of(original@),
    {
        let last = after_last_chars(to_chars(original).as_slice(), CharClass::PathSeparator);
        from_chars(last.as_slice())
    }
}

/// The download link goes through the proxy route `/c/<key>/file` of the
/// site whenever downloads are configured as proxied, whether or not the
/// share forces it, and whenever the share forces it; only direct mode
/// without force hands out the public storage URL: the trimmed base, one
/// `/` between it and the stored name, and the stored name (none without a
/// base).
pub proof fn law_proxy_mode_uses_proxy_route(config: FileUploadConfig, site: SiteConfig, stored: Seq<char>, key: Seq<char>, force_proxy: bool)
    ensures
        (config.download_mode == FileDownloadMode::Proxy || force_proxy) ==> download_url_spec(
            config,
            site,
            stored,
            key,
            force_proxy,
        ) == Some(url_spec(site, "/c/"@ + key + "/file"@)),
        (config.download_mode == FileDownloadMode::Direct && !force_proxy) ==> match download_url_spec(
            config,
            site,
            stored,
            key,
            force_proxy,
        ) {
            Some(u) => {
                let base = trim(config.public_base_url@);
                &&& base.len() > 0
                &&& u.take(base.len() as int) == base
                &&& u.skip(u.len() - stored.len()) == stored
                &&& if base.last() == '/' {
                    u.len() == base.len() + stored.len()
                } else {
                    u.len() == base.len() + 1 + stored.len() && u[base.len() as int] == '/'
                }
            },
            None => trim(config.public_base_url@).len() == 0,
        },
{
    let base = trim(config.public_base_url@);
    if config.download_mode == FileDownloadMode::Direct && !force_proxy && base.len() > 0 {
        if base.last() == '/' {
            let u = base + stored;
            assert(u.skip(u.len() - stored.len()) =~= stored);
            assert(u.take(base.len() as int) =~= base);
        } else {
            let u = base + seq!['/'] + stored;
            assert(u.skip(u.len() - stored.len()) =~= stored);
            assert(u.take(base.len() as int) =~= base);
        }
    }
}

} // verus!
