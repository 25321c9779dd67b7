//! What the share pages answer: the page shown for a share or its refusal,
//! and the headers and refusals of a file download.

use crate::features::share::form::{flag, ShareForm};
use crate::features::share::retrieve::ShareError;
use crate::features::storage::config::{FileDownloadMode, FileUploadConfig};
use crate::features::storage::service::{display_name_of, download_url_spec, StorageService};
use crate::text::{copy_str, push_str, str_eq};
use crate::utility::content_disposition::{attachment_disposition, disposition_spec};
use crate::utility::format::{decimal, u64_to_string};
use crate::utility::url::{append_password_query, with_password_query, SiteConfig};
use crate::web::pages::{
    error_template, status_of_code, BaseContext, ErrorTemplate, Page,
    ShowPasswordTemplate, ShowTemplate,
};
use vstd::prelude::*;

verus! {

pub struct ShareController;

/// The download link of a file share: the storage service's URL, with the
/// password appended when downloads go through the proxy and a password was
/// given; empty when there is none.
pub open spec fn file_link(config: FileUploadConfig, site: SiteConfig, stored: Seq<char>, id: Seq<char>, force_proxy: bool, password: Option<Seq<char>>) -> Seq<char> {
    let uses_proxy = force_proxy || config.download_mode == FileDownloadMode::Proxy;
    match download_url_spec(config, site, stored, id, force_proxy) {
        None => Seq::<char>::empty(),
        Some(u) => match password {
            Some(p) => if uses_proxy && p.len() > 0 {
                with_password_query(u, p)
            } else {
                u
            },
            None => u,
        },
    }
}

pub open spec fn opt_view(o: Option<String>) -> Option<Seq<char>> {
    match o {
        Some(s) => Some(s@),
        None => None,
    }
}

fn message_with_seconds(prefix: &str, secs: u64, suffix: &str) -> (res: String)
    ensures
        res@ == prefix@ + decimal(secs as nat) + suffix@,
{
    let mut m = copy_str(prefix);
    let n = u64_to_string(secs);
    push_str(&mut m, n.as_str());
    push_str(&mut m, suffix);
    m
}

impl ShareController {
    /// The page for a view refused by the rate limit.
    pub fn show_rate_limited(ctx: &BaseContext, retry_after_secs: u64) -> (res: Page)
        ensures
            res matches Page::Error(t, status) && status == 429 && t.code@ == "429"@ && t.title@
                == "درخواست زیاد"@ && t.message@ == "تعداد درخواست‌های شما بیش از حد مجاز است. لطفاً "@
                + decimal(retry_after_secs as nat) + " ثانیه دیگر تلاش کنید."@,
    {
        let message = message_with_seconds(
            "تعداد درخواست‌های شما بیش از حد مجاز است. لطفاً ",
            retry_after_secs,
            " ثانیه دیگر تلاش کنید.",
        );
        Page::Error(error_template(ctx, "429", "درخواست زیاد", message), 429)
    }

    /// The page for a view of a share: the note, the view count and the file
    /// link; a password prompt when access was refused for the password (401);
    /// otherwise the refusal's error page (answered with status 200).
    pub fn show_page(ctx: &BaseContext, result: Result<ShareForm, ShareError>, id: &str, download_password: &Option<String>, config: &FileUploadConfig, site: &SiteConfig) -> (res: Page)
        ensures
            match result {
                Ok(s) => res matches Page::Show(t) && {
                    &&& t.version@ == ctx.version@
                    &&& t.url@ == ctx.url@
                    &&& t.id@ == id@
                    &&& t.count@ == decimal(s.views())
                    &&& t.has_note == (s.note matches Some(n) && n@.len() > 0)
                    &&& t.note@ == match s.note {
                        Some(n) => n@,
                        None => Seq::<char>::empty(),
                    }
                    &&& t.has_file == (s.file_stored_name is Some && s.file_original_name is Some)
                    &&& match (s.file_stored_name, s.file_original_name) {
                        (Some(stored), Some(original)) => {
                            &&& t.file_download_url@ == file_link(
                                *config,
                                *site,
                                stored@,
                                id@,
                                flag(s.require_password) || flag(s.restrict_ip) || flag(s.one_time_use),
                                opt_view(*download_password),
                            )
                            &&& t.file_display_name@ == display_name_of(original@)
                        },
                        _ => {
                            &&& t.file_download_url@ == Seq::<char>::empty()
                            &&& t.file_display_name@ == Seq::<char>::empty()
                        },
                    }
                },
                Err(e) => if e.code@ == "401"@ {
                    res matches Page::PasswordPrompt(p) && p.message@ == e.message@ && p.version@
                        == ctx.version@ && p.url@ == ctx.url@
                } else {
                    res matches Page::Error(t, status) && status == 200 && t.code@ == e.code@
                        && t.title@ == e.title@ && t.message@ == e.message@
                },
            },
    {
        match result {
            Ok(share_form) => {
                let has_note = match &share_form.note {
                    Some(n) => n.as_str().unicode_len() > 0,
                    None => false,
                };
                let note = match &share_form.note {
                    Some(n) => n.clone(),
                    None => String::new(),
                };
                let force_proxy = FileUploadConfig::file_requires_proxy_download(
                    share_form.require_password.unwrap_or(false),
                    share_form.restrict_ip.unwrap_or(false),
                    share_form.one_time_use.unwrap_or(false),
                );
                let uses_proxy = force_proxy || config.download_mode == FileDownloadMode::Proxy;
                let (has_file, file_download_url, file_display_name) = match (
                    &share_form.file_stored_name,
                    &share_form.file_original_name,
                ) {
                    (Some(stored), Some(original)) => {
                        let service = StorageService { config: clone_config(config) };
                        let link = match service.build_download_url(site, stored.as_str(), id, force_proxy) {
                            Some(u) => match download_password {
                                Some(pwd) => if uses_proxy && pwd.as_str().unicode_len() > 0 {
                                    append_password_query(u.as_str(), pwd.as_str())
                                } else {
                                    u
                                },
                                None => u,
                            },
                            None => String::new(),
                        };
                        (true, link, StorageService::display_filename(original.as_str()))
                    },
                    _ => (false, String::new(), String::new()),
                };
                Page::Show(
                    ShowTemplate {
                        version: ctx.version.clone(),
                        url: ctx.url.clone(),
                        count: u64_to_string(share_form.viewed.unwrap_or(0)),
                        note,
                        id: copy_str(id),
                        has_note,
                        has_file,
                        file_download_url,
                        file_display_name,
                    },
                )
            },
            Err(error) => {
                if str_eq(error.code.as_str(), "401") {
                    return Page::PasswordPrompt(
                        ShowPasswordTemplate {
                            version: ctx.version.clone(),
                            url: ctx.url.clone(),
                            message: error.message,
                        },
                    );
                }
                Page::Error(
                    error_template(ctx, error.code.as_str(), error.title.as_str(), error.message),
                    200,
                )
            },
        }
    }

    /// The page for a download refused by the rate limit.
    pub fn download_rate_limited(ctx: &BaseContext, retry_after_secs: u64) -> (res: Page)
        ensures
            res matches Page::Error(t, status) && status == 429 && t.code@ == "429"@ && t.title@
                == "درخواست زیاد"@ && t.message@ == "تعداد دانلودهای شما بیش از حد مجاز است. لطفاً "@
                + decimal(retry_after_secs as nat) + " ثانیه دیگر تلاش کنید."@,
    {
        let message = message_with_seconds(
            "تعداد دانلودهای شما بیش از حد مجاز است. لطفاً ",
            retry_after_secs,
            " ثانیه دیگر تلاش کنید.",
        );

        Page::Error(error_template(ctx, "429", "درخواست زیاد", message), 429)
    }

    /// The page for a download refused by the access check: a password prompt
    /// for 401, otherwise the error page with the status of its code.
    pub fn download_denied(ctx: &BaseContext, error: ShareError) -> (res: Page)
        ensures
            error.code@ == "401"@ ==> (res matches Page::PasswordPrompt(p) && p.message@ == error.message@),
            error.code@ != "401"@ ==> (res matches Page::Error(t, status) && status == status_of_code(
                error.code@,
            ) && t.code@ == error.code@ && t.title@ == error.title@ && t.message@ == error.message@),
    {
        if str_eq(error.code.as_str(), "401") {
            return Page::PasswordPrompt(
                ShowPasswordTemplate {
                    version: ctx.version.clone(),
                    url: ctx.url.clone(),
                    message: error.message,
                },
            );
        }
        let status = ErrorTemplate::status_from_code(error.code.as_str());
        Page::Error(error_template(ctx, error.code.as_str(), error.title.as_str(), error.message), status)
    }

    /// The page when the share has no file, or its file is gone from storage.
    pub fn download_not_found(ctx: &BaseContext, share_has_file: bool) -> (res: Page)
        ensures
            res matches Page::Error(t, status) && status == 404 && t.code@ == "404"@ && t.title@
                == "یافت نشد"@ && t.message@ == if share_has_file {
                "فایل یافت نشد."@
            } else {
                "فایلی برای این اشتراک وجود ندارد."@
            },
    {
        let message = if share_has_file {
            copy_str("فایل یافت نشد.")
        } else {
            copy_str("فایلی برای این اشتراک وجود ندارد.")
        };

        Page::Error(error_template(ctx, "404", "یافت نشد", message), 404)
    }

    /// The headers of a file download: the MIME type guessed from the
    /// original name (`download.bin` when unknown), the attachment
    /// disposition of its display name, and the size that is counted in the
    /// statistics (the stored size, else the bytes read).
    pub fn download_headers(share: &ShareForm, data_len: u64) -> (res: (String, String, u64))
        ensures
            ({
                let original = match share.file_original_name {
                    Some(o) => o@,
                    None => "download.bin"@,
                };
                &&& res.0@ == mime_essence_of_path(original)
                &&& res.1@ == disposition_spec(display_name_of(original))
                &&& res.2 == match share.file_size {
                    Some(s) => s,
                    None => data_len,
                }
            }),
    {
        let original = match &share.file_original_name {
            Some(o) => o.clone(),
            None => copy_str("download.bin"),
        };
        let mime = mime_of_path(original.as_str());
        let display = StorageService::display_filename(original.as_str());
        let disposition = attachment_disposition(display.as_str());
        let bytes = match share.file_size {
            Some(s) => s,
            None => data_len,
        };
        (mime, disposition, bytes)
    }
}

/// What `mime_guess::from_path(path).first_or_octet_stream()` returns, as its
/// essence `type/subtype`.
pub uninterp spec fn mime_essence_of_path(path: Seq<char>) -> Seq<char>;

/// Calls `mime_guess::from_path(path).first_or_octet_stream()`; the result's
/// essence is named `mime_essence_of_path`, the extension table is not stated.
#[verifier::external_body]
pub(crate) fn mime_of_path(path: &str) -> (res: String)
    ensures
        res@ == mime_essence_of_path(path@),
{
    mime_guess::from_path(path).first_or_octet_stream().essence_str().to_string()
}

fn clone_config(c: &FileUploadConfig) -> (res: FileUploadConfig)
    ensures
        res.upload_enabled == c.upload_enabled,
        res.max_size_mb == c.max_size_mb,
        res.public_base_url == c.public_base_url,
        res.download_mode == c.download_mode,
        res.allowed_extensions.elements() == c.allowed_extensions.elements(),
        res.storage == c.storage,
        res.cleanup_interval_secs == c.cleanup_interval_secs,
        res.rate_limit == c.rate_limit,
{
    FileUploadConfig {
        upload_enabled: c.upload_enabled,
        max_size_mb: c.max_size_mb,
        public_base_url: c.public_base_url.clone(),
        download_mode: c.download_mode,
        allowed_extensions: c.allowed_extensions.clone(),
        storage: c.storage.clone(),
        cleanup_interval_secs: c.cleanup_interval_secs,
        rate_limit: c.rate_limit,
    }
}

/// A protected file share (password, IP lock or one-time) is never given a
/// direct storage link: its link is always the proxy route.
pub proof fn law_protected_files_use_proxy(config: FileUploadConfig, site: SiteConfig, stored: Seq<char>, id: Seq<char>, password: Option<Seq<char>>)
    ensures
        download_url_spec(config, site, stored, id, true) == Some(
            crate::utility::url::url_spec(site, "/c/"@ + id + "/file"@),
        ),
{
}

} // verus!
