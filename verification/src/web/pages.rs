//! The pages the site renders, as plain values (the templates render them),
//! and the status codes that go with error pages.

use crate::features::storage::config::{dotted, FileUploadConfig};
use crate::text::{copy_str, join, lex_sorted, str_eq};
use crate::utility::format::{i64_to_string, signed_decimal};
use crate::utility::url::{url, url_spec, SiteConfig};
use vstd::prelude::*;

verus! {

/// Shared by all templates: the version and the site's base URL.
pub struct BaseContext {
    pub version: String,
    pub url: String,
}

impl BaseContext {
    pub fn new(version: &str, site: &SiteConfig) -> (res: Self)
        ensures
            res.version@ == version@,
            res.url@ == url_spec(*site, ""@),
    {
        BaseContext { version: copy_str(version), url: url(site, "") }
    }
}

pub struct ErrorTemplate {
    pub version: String,
    pub url: String,
    pub code: String,
    pub title: String,
    pub message: String,
}

pub struct ShowTemplate {
    pub version: String,
    pub url: String,
    pub count: String,
    pub note: String,
    pub id: String,
    pub has_note: bool,
    pub has_file: bool,
    pub file_download_url: String,
    pub file_display_name: String,
}

pub struct ShowPasswordTemplate {
    pub version: String,
    pub url: String,
    pub message: String,
}

/// The fields of the home page.
pub struct IndexTemplate {
    pub version: String,
    pub url: String,
    pub used: String,
    pub file_upload_enabled: bool,
    pub note_required: bool,
    pub file_max_size_mb: u64,
    pub file_accept_attr: String,
    pub file_allowed_extensions_display: String,
}

pub struct HistoryTemplate {
    pub version: String,
    pub url: String,
}

/// A page to answer with, and its HTTP status.
pub enum Page {
    Show(ShowTemplate),
    PasswordPrompt(ShowPasswordTemplate),
    Error(ErrorTemplate, u16),
}

pub open spec fn status_of_code(code: Seq<char>) -> u16 {
    if code == "401"@ {
        401
    } else if code == "403"@ {
        403
    } else if code == "404"@ {
        404
    } else if code == "410"@ {
        410
    } else if code == "429"@ {
        429
    } else if code == "500"@ {
        500
    } else {
        400
    }
}

impl ErrorTemplate {
    /// The HTTP status of an error page's code; anything unknown is a bad request.
    pub fn status_from_code(code: &str) -> (res: u16)
        ensures
            res == status_of_code(code@),
    {
        if str_eq(code, "401") {
            401
        } else if str_eq(code, "403") {
            403
        } else if str_eq(code, "404") {
            404
        } else if str_eq(code, "410") {
            410
        } else if str_eq(code, "429") {
            429
        } else if str_eq(code, "500") {
            500
        } else {
            400
        }
    }
}

/// An error page with its fields.
pub fn error_template(ctx: &BaseContext, code: &str, title: &str, message: String) -> (res: ErrorTemplate)
    ensures
        res.version@ == ctx.version@,
        res.url@ == ctx.url@,
        res.code@ == code@,
        res.title@ == title@,
        res.message == message,
{
    ErrorTemplate {
        version: ctx.version.clone(),
        url: ctx.url.clone(),
        code: copy_str(code),
        title: copy_str(title),
        message,
    }
}

pub struct HomeController;

impl HomeController {
    /// The home page: the number of shares made so far, and what the upload
    /// form offers.
    pub fn index(ctx: &BaseContext, used: i64, file_cfg: &FileUploadConfig) -> (res: IndexTemplate)
        ensures
            res.version@ == ctx.version@,
            res.url@ == ctx.url@,
            res.used@ == signed_decimal(used as int),
            res.file_upload_enabled == (file_cfg.upload_enabled && file_cfg.allowed_extensions.elements().len() > 0),
            res.note_required == !res.file_upload_enabled,
            res.file_max_size_mb == file_cfg.max_size_mb,
            res.file_accept_attr@ == join(
                file_cfg.allowed_extensions.elements().map_values(|e: Seq<char>| dotted(e)),
                ","@,
            ),
            exists|sorted: Seq<Seq<char>>|
                {
                    &&& sorted.to_multiset() == file_cfg.allowed_extensions.elements().to_multiset()
                    &&& lex_sorted(sorted)
                    &&& res.file_allowed_extensions_display@ == join(sorted, ", "@)
                },
    {
        let available = file_cfg.is_upload_available();
        IndexTemplate {
            version: ctx.version.clone(),
            url: ctx.url.clone(),
            used: i64_to_string(used),
            file_upload_enabled: available,
            note_required: !available,
            file_max_size_mb: file_cfg.max_size_mb,
            file_accept_attr: file_cfg.accept_attr(),
            file_allowed_extensions_display: file_cfg.extensions_display(),
        }
    }

    /// The history page.
    pub fn history(ctx: &BaseContext) -> (res: HistoryTemplate)
        ensures
            res.version@ == ctx.version@,
            res.url@ == ctx.url@,
    {
        HistoryTemplate { version: ctx.version.clone(), url: ctx.url.clone() }
    }

    /// The page for an address that leads nowhere.
    pub fn not_found(ctx: &BaseContext) -> (res: ErrorTemplate)
        ensures
            res.version@ == ctx.version@,
            res.url@ == ctx.url@,
            res.code@ == "404"@,
            res.title@ == "صفحه مورد نظر یافت نشد"@,
            res.message@ == "ممکن است لینک اشتباه باشد یا محتوا حذف شده باشد."@,
    {
        error_template(
            ctx,
            "404",
            "صفحه مورد نظر یافت نشد",
            copy_str("ممکن است لینک اشتباه باشد یا محتوا حذف شده باشد."),
        )
    }
}

} // verus!
